use blog_core::hasher;
use blog_core::models::SessionUser;
use blog_core::sessions::SessionStore;
use blog_core::theme::ThemePreference;

fn anon() -> SessionUser {
    SessionUser {
        id: None,
        username: None,
        is_admin: false,
        theme_preference: ThemePreference::System,
    }
}

fn named(id: i64, name: &str) -> SessionUser {
    SessionUser {
        id: Some(id),
        username: Some(name.to_string()),
        is_admin: false,
        theme_preference: ThemePreference::Dark,
    }
}

#[test]
fn hash_round_trip() {
    let hash = hasher::hash("longenoughpw").expect("hashing should succeed");
    assert!(hasher::verify("longenoughpw", &hash));
    assert!(!hasher::verify("otherpassword", &hash));
}

#[test]
fn hash_salts_are_unique() {
    let first = hasher::hash("longenoughpw").unwrap();
    let second = hasher::hash("longenoughpw").unwrap();
    assert_ne!(first, second, "each hash draws a fresh salt");
    // both still verify the password they were made from
    assert!(hasher::verify("longenoughpw", &first));
    assert!(hasher::verify("longenoughpw", &second));
}

#[test]
fn malformed_hash_is_a_mismatch_not_an_error() {
    assert!(!hasher::verify("anything", "not-a-phc-string"));
    assert!(!hasher::verify("anything", ""));
}

#[test]
fn create_or_renew_preserves_valid_token() {
    let mut store = SessionStore::new();
    let (token, fresh) = store.create_or_renew(None, anon(), 1000);
    assert!(fresh);
    let (renewed, fresh2) = store.create_or_renew(Some(&token), named(1, "alice"), 2000);
    assert_eq!(renewed, token);
    assert!(!fresh2);
    let resolved = store.resolve(&token, 2001).unwrap();
    assert_eq!(resolved.id, Some(1));
    assert_eq!(resolved.username.as_deref(), Some("alice"));
}

#[test]
fn create_or_renew_mints_fresh_for_expired_token() {
    let mut store = SessionStore::new();
    let (token, _) = store.create_or_renew(None, anon(), 1000);
    let after_expiry = 1000 + 86400;
    let (new_token, fresh) = store.create_or_renew(Some(&token), anon(), after_expiry);
    assert_ne!(new_token, token, "an expired token is never renewed in place");
    assert!(fresh);
}

#[test]
fn create_or_renew_mints_fresh_for_unknown_token() {
    let mut store = SessionStore::new();
    let stale = "0000-not-a-live-token".to_string();
    let (token, fresh) = store.create_or_renew(Some(&stale), anon(), 1000);
    assert_ne!(token, stale);
    assert!(fresh);
}

#[test]
fn expired_session_resolves_to_none() {
    let mut store = SessionStore::new();
    let (token, _) = store.create_or_renew(None, named(7, "bob"), 1000);
    // alive strictly before the expiry instant
    assert!(store.resolve(&token, 1000 + 86399).is_some());
    // gone from the expiry instant on
    assert!(store.resolve(&token, 1000 + 86400).is_none());
    assert!(store.resolve(&token, 5_000_000_000).is_none());
}

#[test]
fn unknown_token_resolves_to_none() {
    let store = SessionStore::new();
    assert!(store.resolve("never-issued", 1000).is_none());
}

#[test]
fn delete_removes_row_and_is_idempotent() {
    let mut store = SessionStore::new();
    let (token, _) = store.create_or_renew(None, anon(), 1000);
    assert!(store.resolve(&token, 1001).is_some());
    store.delete(&token);
    assert!(store.resolve(&token, 1002).is_none());
    store.delete(&token);
    store.delete("never-issued");
}

#[test]
fn renewal_extends_expiry() {
    let mut store = SessionStore::new();
    let (token, _) = store.create_or_renew(None, anon(), 1000);
    let (same, _) = store.create_or_renew(Some(&token), anon(), 50_000);
    assert_eq!(same, token);
    // past the first expiry but within the renewed lifetime
    assert!(store.resolve(&token, 1000 + 86400).is_some());
    assert!(store.resolve(&token, 50_000 + 86400).is_none());
}

#[test]
fn minted_tokens_differ_between_sessions() {
    let mut store = SessionStore::new();
    let (a, _) = store.create_or_renew(None, anon(), 1000);
    let (b, _) = store.create_or_renew(None, anon(), 1000);
    assert_ne!(a, b);
    assert_eq!(a.len(), 36);
    assert_eq!(b.len(), 36);
}
