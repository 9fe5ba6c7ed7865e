use nverify::config::{Config, ConfigStore};
use nverify::handler::{handle_member_join, handle_message, Action};
use nverify::parse::{bytes_eq, get_config_args, get_verify_arg, has_prefix, parse_u64, split_bytes};
use nverify::pending::PendingTable;

fn is_alphanumeric(b: u8) -> bool {
    (65..=90).contains(&b) || (97..=122).contains(&b) || (48..=57).contains(&b)
}

fn verify_msg(token: &[u8]) -> Vec<u8> {
    let mut m = b"!verify ".to_vec();
    m.extend_from_slice(token);
    m
}

#[test]
fn config_set_then_get() {
    let mut store = ConfigStore::new();
    assert!(store.get().is_none());
    store.set(Config { channel_id: 7, verified_role_id: 9 });
    assert_eq!(store.get(), Some(Config { channel_id: 7, verified_role_id: 9 }));
    store.set(Config { channel_id: u64::MAX, verified_role_id: 0 });
    assert_eq!(store.get(), Some(Config { channel_id: u64::MAX, verified_role_id: 0 }));
}

#[test]
fn issued_token_is_seven_alphanumerics() {
    let mut table = PendingTable::new();
    let tok = table.issue(42);
    assert_eq!(tok.len(), 7);
    assert!(tok.iter().all(|&b| is_alphanumeric(b)));
    assert_eq!(table.lookup(42), Some(&tok));
}

#[test]
fn reissue_overwrites_prior_token() {
    let mut table = PendingTable::new();
    table.issue(42);
    let second = table.issue(42);
    assert_eq!(table.lookup(42), Some(&second));
}

#[test]
fn join_without_configuration_is_a_noop() {
    let store = ConfigStore::new();
    let mut table = PendingTable::new();
    let act = handle_member_join(&store, &mut table, 5);
    assert!(matches!(act, Action::Nothing));
    assert!(table.lookup(5).is_none());
}

#[test]
fn join_with_configuration_issues_a_challenge() {
    let mut store = ConfigStore::new();
    store.set(Config { channel_id: 10, verified_role_id: 20 });
    let mut table = PendingTable::new();
    let act = handle_member_join(&store, &mut table, 5);
    match act {
        Action::SendChallenge { channel_id, user_id, token } => {
            assert_eq!(channel_id, 10);
            assert_eq!(user_id, 5);
            assert_eq!(token.len(), 7);
            assert_eq!(table.lookup(5), Some(&token));
        }
        _ => panic!("expected a challenge"),
    }
}

#[test]
fn verify_in_wrong_channel_never_grants() {
    let mut store = ConfigStore::new();
    store.set(Config { channel_id: 10, verified_role_id: 20 });
    let mut table = PendingTable::new();
    let token = table.issue(5);
    let msg = verify_msg(&token);
    let act = handle_message(&mut store, &mut table, 11, 5, false, &msg);
    assert!(matches!(act, Action::Nothing));
    assert_eq!(table.lookup(5), Some(&token));
}

#[test]
fn verify_matching_token_grants_exactly_once() {
    let mut store = ConfigStore::new();
    store.set(Config { channel_id: 10, verified_role_id: 20 });
    let mut table = PendingTable::new();
    let token = table.issue(5);
    let msg = verify_msg(&token);
    let act = handle_message(&mut store, &mut table, 10, 5, false, &msg);
    assert!(matches!(act, Action::GrantRole { user_id: 5, role_id: 20 }));
    assert!(table.lookup(5).is_none());
    let again = handle_message(&mut store, &mut table, 10, 5, false, &msg);
    assert!(matches!(again, Action::DenyVerify { channel_id: 10, user_id: 5 }));
}

#[test]
fn verify_wrong_token_does_not_grant() {
    let mut store = ConfigStore::new();
    store.set(Config { channel_id: 10, verified_role_id: 20 });
    let mut table = PendingTable::new();
    let token = table.issue(5);
    let mut wrong = token.clone();
    wrong[0] = if wrong[0] == b'A' { b'B' } else { b'A' };
    let act = handle_message(&mut store, &mut table, 10, 5, false, &verify_msg(&wrong));
    assert!(matches!(act, Action::DenyVerify { channel_id: 10, user_id: 5 }));
    assert_eq!(table.lookup(5), Some(&token));
}

#[test]
fn verify_without_argument_is_denied() {
    let mut store = ConfigStore::new();
    store.set(Config { channel_id: 10, verified_role_id: 20 });
    let mut table = PendingTable::new();
    table.issue(5);
    let act = handle_message(&mut store, &mut table, 10, 5, false, b"!verify");
    assert!(matches!(act, Action::DenyVerify { channel_id: 10, user_id: 5 }));
}

#[test]
fn non_admin_cannot_reconfigure() {
    let mut store = ConfigStore::new();
    let mut table = PendingTable::new();
    let act = handle_message(&mut store, &mut table, 10, 5, false, b"!ver-config 1 2");
    assert!(matches!(act, Action::Nothing));
    assert!(store.get().is_none());

    store.set(Config { channel_id: 10, verified_role_id: 20 });
    let act = handle_message(&mut store, &mut table, 10, 5, false, b"!ver-config 1 2");
    assert!(matches!(act, Action::Nothing));
    assert_eq!(store.get(), Some(Config { channel_id: 10, verified_role_id: 20 }));
}

#[test]
fn admin_reconfigures_with_valid_arguments() {
    let mut store = ConfigStore::new();
    let mut table = PendingTable::new();
    let act = handle_message(&mut store, &mut table, 10, 5, true, b"!ver-config 123 456");
    assert!(matches!(act, Action::Nothing));
    assert_eq!(store.get(), Some(Config { channel_id: 123, verified_role_id: 456 }));
}

#[test]
fn malformed_config_arguments_are_reported() {
    let mut store = ConfigStore::new();
    let mut table = PendingTable::new();
    let act = handle_message(&mut store, &mut table, 10, 5, true, b"!ver-config ten 2");
    assert!(matches!(act, Action::RejectConfigArgs { channel_id: 10, user_id: 5 }));
    assert!(store.get().is_none());
    let act = handle_message(&mut store, &mut table, 10, 5, true, b"!ver-config 7");
    assert!(matches!(act, Action::RejectConfigArgs { channel_id: 10, user_id: 5 }));
    assert!(store.get().is_none());
    let act = handle_message(
        &mut store,
        &mut table,
        10,
        5,
        true,
        b"!ver-config 18446744073709551616 2",
    );
    assert!(matches!(act, Action::RejectConfigArgs { channel_id: 10, user_id: 5 }));
    assert!(store.get().is_none());
}

#[test]
fn unrelated_messages_do_nothing() {
    let mut store = ConfigStore::new();
    store.set(Config { channel_id: 10, verified_role_id: 20 });
    let mut table = PendingTable::new();
    let act = handle_message(&mut store, &mut table, 10, 5, true, b"hello there");
    assert!(matches!(act, Action::Nothing));
    assert_eq!(store.get(), Some(Config { channel_id: 10, verified_role_id: 20 }));
}

#[test]
fn startup_scenario_configure_then_read_back() {
    // Cold start with no persisted record: nothing is loaded, so the
    // configuration is unset and verify and join events are no-ops.
    let mut store = ConfigStore::new();
    let mut table = PendingTable::new();
    let act = handle_message(&mut store, &mut table, 1, 2, false, b"!verify abcdefg");
    assert!(matches!(act, Action::Nothing));
    let act = handle_member_join(&store, &mut table, 2);
    assert!(matches!(act, Action::Nothing));
    let act = handle_message(
        &mut store,
        &mut table,
        1,
        3,
        true,
        b"!ver-config 111222333444 555666777888",
    );
    assert!(matches!(act, Action::Nothing));
    assert_eq!(
        store.get(),
        Some(Config { channel_id: 111222333444, verified_role_id: 555666777888 })
    );
}

#[test]
fn parse_u64_accepts_digits_only() {
    assert_eq!(parse_u64(b"0"), Some(0));
    assert_eq!(parse_u64(b"007"), Some(7));
    assert_eq!(parse_u64(b"18446744073709551615"), Some(u64::MAX));
    assert_eq!(parse_u64(b"18446744073709551616"), None);
    assert_eq!(parse_u64(b""), None);
    assert_eq!(parse_u64(b"12a"), None);
    assert_eq!(parse_u64(b"-5"), None);
    assert_eq!(parse_u64(b"+5"), None);
}

#[test]
fn verify_argument_extraction() {
    assert_eq!(get_verify_arg(b"!verify abc"), Some(b"abc".to_vec()));
    assert_eq!(get_verify_arg(b"!verify abc def"), Some(b"abc".to_vec()));
    assert_eq!(get_verify_arg(b"!verify"), None);
    // two separators in a row enclose an empty field
    assert_eq!(get_verify_arg(b"!verify  abc"), Some(b"".to_vec()));
}

#[test]
fn config_argument_extraction() {
    let c = get_config_args(b"!ver-config 12 9");
    assert_eq!(c, Some(Config { channel_id: 12, verified_role_id: 9 }));
    assert_eq!(get_config_args(b"!ver-config 12"), None);
    assert_eq!(get_config_args(b"!ver-config 12 x"), None);
}

#[test]
fn byte_helpers() {
    assert!(has_prefix(b"!verify abc", b"!verify"));
    assert!(!has_prefix(b"!verif", b"!verify"));
    assert!(!has_prefix(b"!ver-config 1 2", b"!verify"));
    assert!(bytes_eq(b"abc", b"abc"));
    assert!(!bytes_eq(b"abc", b"abd"));
    assert!(!bytes_eq(b"abc", b"ab"));
    let fields = split_bytes(b"a b  c", b' ');
    let fields: Vec<&[u8]> = fields.iter().map(|f| f.as_slice()).collect();
    assert_eq!(fields, vec![&b"a"[..], &b"b"[..], &b""[..], &b"c"[..]]);
    assert_eq!(split_bytes(b"", b' ').len(), 1);
}
