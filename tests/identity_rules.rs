use localchat::identity::{derive_identity, IdentityError, IdentityManager};
use localchat::settings::SettingsState;
use localchat::text::keep_alnum;

fn is_suffix(s: &str) -> bool {
    s.len() == 8 && s.chars().all(|c| c.is_ascii_alphanumeric())
}

#[test]
fn derive_identity_builds_both_identifiers() {
    let id = derive_identity("My Cool Name", "a1b2c3d4");
    assert_eq!(id.user_provided_name, "My Cool Name");
    assert_eq!(id.m_dns_instance_name, "MyCoolName_a1b2c3d4");
    assert_eq!(id.full_message_id, "My Cool Name - a1b2c3d4");
}

#[test]
fn derive_identity_falls_back_when_nothing_alphanumeric() {
    let id = derive_identity("!!! ---", "ZZZZ0000");
    assert_eq!(id.m_dns_instance_name, "LocalChat_ZZZZ0000");
    assert_eq!(id.full_message_id, "!!! --- - ZZZZ0000");
}

#[test]
fn derive_identity_of_empty_name() {
    let id = derive_identity("", "abcdefgh");
    assert_eq!(id.m_dns_instance_name, "LocalChat_abcdefgh");
    assert_eq!(id.full_message_id, " - abcdefgh");
}

#[test]
fn keep_alnum_keeps_unicode_letters_and_digits() {
    assert_eq!(keep_alnum("a-b c!é1_"), "abcé1");
    assert_eq!(keep_alnum("..."), "");
}

#[test]
fn set_identity_twice_keeps_the_first() {
    let mut m = IdentityManager::new();
    assert!(m.current().is_none());
    let first = m.set_identity("Alice", "Xy12Zw34");
    assert_eq!(first, Ok("Alice - Xy12Zw34".to_string()));
    let second = m.set_identity("Bob", "00000000");
    assert_eq!(second, Err(IdentityError::AlreadySet));
    let cur = m.current().unwrap();
    assert_eq!(cur.full_message_id, "Alice - Xy12Zw34");
    assert_eq!(cur.m_dns_instance_name, "Alice_Xy12Zw34");
}

#[test]
fn set_username_alice_then_bob() {
    let mut m = IdentityManager::new();
    let id = m.set_username("Alice").unwrap();
    assert!(id.starts_with("Alice - "));
    let suffix = &id["Alice - ".len()..];
    assert!(is_suffix(suffix), "suffix {:?}", suffix);
    assert_eq!(m.set_username("Bob"), Err(IdentityError::AlreadySet));
    let cur = m.current().unwrap();
    assert_eq!(cur.full_message_id, id);
    assert_eq!(cur.user_provided_name, "Alice");
    assert_eq!(cur.m_dns_instance_name, format!("Alice_{}", suffix));
}

#[test]
fn settings_state_starts_empty() {
    let s = SettingsState::new();
    assert_eq!(s.edit_username_input, "");
}
