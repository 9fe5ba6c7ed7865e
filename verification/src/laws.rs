//! Properties of the event-handling rules, proved once and for all from
//! `message_step` and the table model.

use crate::config::Config;
use crate::handler::{message_step, Action};
use crate::parse::{is_verify_command, verify_arg};
use vstd::prelude::*;

verus! {

/// Issuing a token to a user who already holds one overwrites the earlier
/// entry: afterwards the table holds the fresh token for that user, and the
/// old token matches a lookup only if the two happen to coincide.
pub proof fn lemma_reissue_overwrites(
    pending: Map<u64, Seq<u8>>,
    user_id: u64,
    first: Seq<u8>,
    second: Seq<u8>,
)
    ensures
        pending.insert(user_id, first).insert(user_id, second) == pending.insert(user_id, second),
        pending.insert(user_id, first).insert(user_id, second)[user_id] == second,
        first != second ==> pending.insert(user_id, first).insert(user_id, second)[user_id]
            != first,
{
    assert(pending.insert(user_id, first).insert(user_id, second) =~= pending.insert(
        user_id,
        second,
    ));
}

/// A role is only ever granted in the configured challenge channel: whatever
/// the message, the author, and the submitted token, no grant comes out of a
/// message sent elsewhere, or while no configuration is in force.
pub proof fn lemma_grant_only_in_configured_channel(
    config: Option<Config>,
    pending: Map<u64, Seq<u8>>,
    channel_id: u64,
    author_id: u64,
    author_is_admin: bool,
    content: Seq<u8>,
)
    ensures
        message_step(config, pending, channel_id, author_id, author_is_admin, content).2
            is GrantRole ==> (config matches Some(c) && channel_id == c.channel_id),
{
}

/// While no configuration is in force, a `!verify` message changes nothing
/// and calls for no outbound effect.
pub proof fn lemma_unconfigured_verify_is_noop(
    pending: Map<u64, Seq<u8>>,
    channel_id: u64,
    author_id: u64,
    author_is_admin: bool,
    content: Seq<u8>,
)
    requires
        is_verify_command(content),
    ensures
        message_step(None, pending, channel_id, author_id, author_is_admin, content) == (
            None::<Config>,
            pending,
            Action::Nothing,
        ),
{
}

/// A user whose pending token is exactly the one they submit in the
/// configured channel is granted the configured role, and their entry is
/// consumed: submitting the same token again is refused, so the grant happens
/// exactly once.
pub proof fn lemma_matching_token_grants_once(
    c: Config,
    pending: Map<u64, Seq<u8>>,
    author_id: u64,
    author_is_admin: bool,
    content: Seq<u8>,
    tok: Seq<u8>,
)
    requires
        is_verify_command(content),
        verify_arg(content) == Some(tok),
        pending.contains_key(author_id),
        pending[author_id] == tok,
    ensures
        ({
            let (c1, p1, a1) = message_step(
                Some(c),
                pending,
                c.channel_id,
                author_id,
                author_is_admin,
                content,
            );
            &&& a1 == (Action::GrantRole { user_id: author_id, role_id: c.verified_role_id })
            &&& p1 == pending.remove(author_id)
            &&& c1 == Some(c)
            &&& message_step(c1, p1, c.channel_id, author_id, author_is_admin, content).1 == p1
            &&& message_step(c1, p1, c.channel_id, author_id, author_is_admin, content).2 == (
            Action::DenyVerify { channel_id: c.channel_id, user_id: author_id })
        }),
{
}

/// A `!verify` message whose submitted token is not the author's pending one
/// never grants the role and leaves the table as it was.
pub proof fn lemma_wrong_token_never_grants(
    config: Option<Config>,
    pending: Map<u64, Seq<u8>>,
    channel_id: u64,
    author_id: u64,
    author_is_admin: bool,
    content: Seq<u8>,
)
    requires
        is_verify_command(content),
        !(verify_arg(content) matches Some(tok) && pending.contains_key(author_id)
            && pending[author_id] == tok),
    ensures
        !(message_step(config, pending, channel_id, author_id, author_is_admin, content).2
            is GrantRole),
        message_step(config, pending, channel_id, author_id, author_is_admin, content).1
            == pending,
{
}

/// No message from a non-administrator ever changes the configuration.
pub proof fn lemma_non_admin_cannot_reconfigure(
    config: Option<Config>,
    pending: Map<u64, Seq<u8>>,
    channel_id: u64,
    author_id: u64,
    content: Seq<u8>,
)
    ensures
        message_step(config, pending, channel_id, author_id, false, content).0 == config,
{
}

} // verus!
