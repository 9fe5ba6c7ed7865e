//! The event handler: for each inbound event, how the configuration store and
//! the pending table change, and which outbound effect the hosting process
//! must perform. The handler itself performs no I/O; it only decides.

use crate::config::{Config, ConfigStore};
use crate::parse::{
    bytes_eq, config_args, config_prefix, get_config_args, get_verify_arg, has_prefix,
    is_config_command, is_verify_command, verify_arg, verify_prefix,
};
use crate::pending::PendingTable;
use crate::token::is_token;
use vstd::prelude::*;

verus! {

/// The outbound effect an event calls for. The hosting process performs it
/// after the handler returns; a platform failure while doing so is logged and
/// ends that event's handling only.
pub enum Action {
    /// No outbound call.
    Nothing,
    /// Post the challenge into the configured channel, addressed to the new
    /// member and carrying their token.
    SendChallenge { channel_id: u64, user_id: u64, token: Vec<u8> },
    /// Grant the author the configured role.
    GrantRole { user_id: u64, role_id: u64 },
    /// Tell the author in the challenge channel that the attempt failed.
    DenyVerify { channel_id: u64, user_id: u64 },
    /// Tell the issuer the reconfiguration arguments were malformed.
    RejectConfigArgs { channel_id: u64, user_id: u64 },
}

/// What an incoming message does to the state, and the action it calls for.
///
/// A `!verify` message is honoured only when a configuration is in force and
/// the message was sent in the configured channel; the role is granted if and
/// only if the submitted token matches the author's pending entry exactly,
/// and the entry is consumed by the grant. A `!ver-config` message from an
/// administrator replaces the configuration when both arguments parse as
/// unsigned 64-bit integers; from anyone else it does nothing. Any other
/// message does nothing.
pub open spec fn message_step(
    config: Option<Config>,
    pending: Map<u64, Seq<u8>>,
    channel_id: u64,
    author_id: u64,
    author_is_admin: bool,
    content: Seq<u8>,
) -> (Option<Config>, Map<u64, Seq<u8>>, Action) {
    if is_verify_command(content) {
        match config {
            Option::None => (config, pending, Action::Nothing),
            Option::Some(c) => {
                if channel_id != c.channel_id {
                    (config, pending, Action::Nothing)
                } else {
                    match verify_arg(content) {
                        Option::Some(tok) => {
                            if pending.contains_key(author_id) && pending[author_id] == tok {
                                (
                                    config,
                                    pending.remove(author_id),
                                    Action::GrantRole {
                                        user_id: author_id,
                                        role_id: c.verified_role_id,
                                    },
                                )
                            } else {
                                (
                                    config,
                                    pending,
                                    Action::DenyVerify { channel_id, user_id: author_id },
                                )
                            }
                        },
                        Option::None => (
                            config,
                            pending,
                            Action::DenyVerify { channel_id, user_id: author_id },
                        ),
                    }
                }
            },
        }
    } else if is_config_command(content) {
        if !author_is_admin {
            (config, pending, Action::Nothing)
        } else {
            match config_args(content) {
                Option::Some(c) => (Some(c), pending, Action::Nothing),
                Option::None => (
                    config,
                    pending,
                    Action::RejectConfigArgs { channel_id, user_id: author_id },
                ),
            }
        }
    } else {
        (config, pending, Action::Nothing)
    }
}

/// Reacts to a member joining. With no configuration in force nothing
/// happens; otherwise a fresh token is issued for the member — overwriting
/// any earlier entry — and the challenge is to be posted in the configured
/// channel.
pub fn handle_member_join(config: &ConfigStore, pending: &mut PendingTable, user_id: u64) -> (act:
    Action)
    ensures
        config@ is None ==> act == Action::Nothing && final(pending)@ == old(pending)@,
        config@ matches Some(c) ==> (act matches Action::SendChallenge {
            channel_id,
            user_id: member,
            token,
        } && channel_id == c.channel_id && member == user_id && is_token(token@)
            && final(pending)@ == old(pending)@.insert(user_id, token@)),
{
    match config.get() {
        None => Action::Nothing,
        Some(c) => {
            let token = pending.issue(user_id);
            Action::SendChallenge { channel_id: c.channel_id, user_id, token }
        },
    }
}

/// Reacts to an incoming message, exactly as `message_step` describes.
pub fn handle_message(
    config: &mut ConfigStore,
    pending: &mut PendingTable,
    channel_id: u64,
    author_id: u64,
    author_is_admin: bool,
    content: &[u8],
) -> (act: Action)
    ensures
        ({
            let (c2, p2, a) = message_step(
                old(config)@,
                old(pending)@,
                channel_id,
                author_id,
                author_is_admin,
                content@,
            );
            &&& final(config)@ == c2
            &&& final(pending)@ == p2
            &&& act == a
        }),
{
    let vp = verify_prefix_vec();
    let cp = config_prefix_vec();
    if has_prefix(content, vp.as_slice()) {
        match config.get() {
            None => Action::Nothing,
            Some(c) => {
                if channel_id != c.channel_id {
                    Action::Nothing
                } else {
                    match get_verify_arg(content) {
                        Some(tok) => {
                            let entry_matches = match pending.lookup(author_id) {
                                Some(t) => bytes_eq(t.as_slice(), tok.as_slice()),
                                None => false,
                            };
                            if entry_matches {
                                pending.consume(author_id);
                                Action::GrantRole {
                                    user_id: author_id,
                                    role_id: c.verified_role_id,
                                }
                            } else {
                                Action::DenyVerify { channel_id, user_id: author_id }
                            }
                        },
                        None => Action::DenyVerify { channel_id, user_id: author_id },
                    }
                }
            },
        }
    } else if has_prefix(content, cp.as_slice()) {
        if !author_is_admin {
            Action::Nothing
        } else {
            match get_config_args(content) {
                Some(c) => {
                    config.set(c);
                    Action::Nothing
                },
                None => Action::RejectConfigArgs { channel_id, user_id: author_id },
            }
        }
    } else {
        Action::Nothing
    }
}

/// Whether a message is a `!ver-config` command, so the hosting process can
/// resolve the author's administrator authority — a platform lookup — before
/// handing the message over, and only then.
pub fn is_reconfiguration(content: &[u8]) -> (r: bool)
    ensures
        r == is_config_command(content@),
{
    let cp = config_prefix_vec();
    has_prefix(content, cp.as_slice())
}

/// The bytes of `!verify`, as a value.
fn verify_prefix_vec() -> (v: Vec<u8>)
    ensures
        v@ == verify_prefix(),
{
    let mut v: Vec<u8> = Vec::new();
    v.push(33);
    v.push(118);
    v.push(101);
    v.push(114);
    v.push(105);
    v.push(102);
    v.push(121);
    proof {
        assert(v@ =~= verify_prefix());
    }
    v
}

/// The bytes of `!ver-config`, as a value.
fn config_prefix_vec() -> (v: Vec<u8>)
    ensures
        v@ == config_prefix(),
{
    let mut v: Vec<u8> = Vec::new();
    v.push(33);
    v.push(118);
    v.push(101);
    v.push(114);
    v.push(45);
    v.push(99);
    v.push(111);
    v.push(110);
    v.push(102);
    v.push(105);
    v.push(103);
    proof {
        assert(v@ =~= config_prefix());
    }
    v
}

} // verus!
