use blog_core::errors::ServerError;
use blog_core::models::{LoginCredentials, NewUser};
use blog_core::service::BlogServer;
use blog_core::theme::ThemePreference;

fn register_ok(server: &mut BlogServer, username: &str, password: &str, now: u64) {
    let r = server.register(
        NewUser { username: username.to_string(), password: password.to_string() },
        now,
    );
    assert!(r.is_ok());
}

fn login_ok(
    server: &mut BlogServer,
    username: &str,
    password: &str,
    token: Option<&String>,
    now: u64,
) -> (blog_core::models::User, blog_core::service::SessionHandle) {
    server
        .login(
            LoginCredentials { username: username.to_string(), password: password.to_string() },
            token,
            now,
        )
        .expect("login should succeed")
}

#[test]
fn register_then_duplicate_username_is_taken() {
    let mut server = BlogServer::new();
    register_ok(&mut server, "alice", "longenoughpw", 1000);
    let r = server.register(
        NewUser { username: "alice".to_string(), password: "other12345".to_string() },
        1001,
    );
    assert_eq!(r.unwrap_err(), ServerError::UsernameTaken);
}

#[test]
fn register_short_password_rejected() {
    let mut server = BlogServer::new();
    let r = server.register(
        NewUser { username: "bob".to_string(), password: "short12".to_string() },
        1000,
    );
    assert_eq!(r.unwrap_err(), ServerError::PasswordTooShort);
    // exactly eight characters passes the server-side floor
    let r = server.register(
        NewUser { username: "bob".to_string(), password: "short123".to_string() },
        1000,
    );
    assert!(r.is_ok());
}

#[test]
fn register_never_logs_in() {
    let mut server = BlogServer::new();
    register_ok(&mut server, "alice", "longenoughpw", 1000);
    assert!(server.get_current_user(None, 1000).is_none());
}

#[test]
fn login_wrong_password_and_unknown_user_same_error() {
    let mut server = BlogServer::new();
    register_ok(&mut server, "alice", "longenoughpw", 1000);
    let wrong_pw = server.login(
        LoginCredentials { username: "alice".to_string(), password: "wrongpw".to_string() },
        None,
        2000,
    );
    assert_eq!(wrong_pw.unwrap_err(), ServerError::InvalidCredentials);
    let unknown = server.login(
        LoginCredentials { username: "nosuchuser".to_string(), password: "x".to_string() },
        None,
        2000,
    );
    assert_eq!(unknown.unwrap_err(), ServerError::InvalidCredentials);
}

#[test]
fn login_returns_user_and_sets_cookie_then_current_user_resolves() {
    let mut server = BlogServer::new();
    register_ok(&mut server, "alice", "longenoughpw", 1000);
    let (user, handle) = login_ok(&mut server, "alice", "longenoughpw", None, 2000);
    assert_eq!(user.username, "alice");
    assert!(!user.is_admin);
    assert!(handle.fresh, "a first login must set the session cookie");
    let current = server.get_current_user(Some(&handle.token), 2001);
    let current = current.expect("session should resolve to alice");
    assert_eq!(current.id, user.id);
    assert_eq!(current.username, "alice");
}

#[test]
fn login_with_valid_session_reuses_token() {
    let mut server = BlogServer::new();
    register_ok(&mut server, "alice", "longenoughpw", 1000);
    let (_, first) = login_ok(&mut server, "alice", "longenoughpw", None, 2000);
    let (_, second) = login_ok(&mut server, "alice", "longenoughpw", Some(&first.token), 2500);
    assert_eq!(second.token, first.token);
    assert!(!second.fresh, "a renewed session needs no new cookie");
}

#[test]
fn logout_deletes_session() {
    let mut server = BlogServer::new();
    register_ok(&mut server, "alice", "longenoughpw", 1000);
    let (_, handle) = login_ok(&mut server, "alice", "longenoughpw", None, 2000);
    assert!(server.get_current_user(Some(&handle.token), 2001).is_some());
    server.logout(Some(&handle.token));
    assert!(server.get_current_user(Some(&handle.token), 2002).is_none());
    // logging out again, or without a cookie, is still fine
    server.logout(Some(&handle.token));
    server.logout(None);
}

#[test]
fn current_user_refreshes_stale_snapshot() {
    let mut server = BlogServer::new();
    register_ok(&mut server, "alice", "longenoughpw", 1000);
    let (user, handle) = login_ok(&mut server, "alice", "longenoughpw", None, 2000);
    // the session snapshot still says non-admin after a direct promotion
    server.users.set_admin(user.id, true);
    let session = server.get_user_session(Some(&handle.token), 2001).unwrap();
    assert!(!session.is_admin);
    // resolution hands out the authoritative row and rewrites the snapshot
    let current = server.get_current_user(Some(&handle.token), 2001).unwrap();
    assert!(current.is_admin);
    let session = server.get_user_session(Some(&handle.token), 2002).unwrap();
    assert!(session.is_admin);
}

#[test]
fn require_admin_anonymous_and_non_admin_forbidden() {
    let mut server = BlogServer::new();
    register_ok(&mut server, "alice", "longenoughpw", 1000);
    let (_, handle) = login_ok(&mut server, "alice", "longenoughpw", None, 2000);
    assert_eq!(server.require_admin(None, 2001).unwrap_err(), ServerError::Forbidden);
    assert_eq!(
        server.require_admin(Some(&handle.token), 2001).unwrap_err(),
        ServerError::Forbidden
    );
}

#[test]
fn require_admin_uses_refetched_row_not_cached_snapshot() {
    let mut server = BlogServer::new();
    register_ok(&mut server, "alice", "longenoughpw", 1000);
    let (user, handle) = login_ok(&mut server, "alice", "longenoughpw", None, 2000);
    // promoted after login: the cached snapshot says non-admin, the row says admin
    server.users.set_admin(user.id, true);
    let granted = server.require_admin(Some(&handle.token), 2001);
    assert!(granted.is_ok(), "the re-fetched row decides, not the snapshot");
    // demoted with a session whose snapshot says admin: access must go away
    let (_, handle2) = login_ok(&mut server, "alice", "longenoughpw", Some(&handle.token), 2100);
    server.users.set_admin(user.id, false);
    assert_eq!(
        server.require_admin(Some(&handle2.token), 2101).unwrap_err(),
        ServerError::Forbidden
    );
}

#[test]
fn require_admin_expired_session_forbidden() {
    let mut server = BlogServer::new();
    register_ok(&mut server, "alice", "longenoughpw", 1000);
    let (user, handle) = login_ok(&mut server, "alice", "longenoughpw", None, 2000);
    server.users.set_admin(user.id, true);
    let past_expiry = 2000 + 86400;
    assert_eq!(
        server.require_admin(Some(&handle.token), past_expiry).unwrap_err(),
        ServerError::Forbidden
    );
}

#[test]
fn user_snapshot_carries_identity() {
    let mut server = BlogServer::new();
    register_ok(&mut server, "alice", "longenoughpw", 1000);
    let user = server.users.find_by_username("alice").unwrap();
    let snapshot = user.get_session_user();
    assert_eq!(snapshot.id, Some(user.id));
    assert_eq!(snapshot.username.as_deref(), Some("alice"));
    assert!(!snapshot.is_admin);
    assert_eq!(snapshot.theme_preference, ThemePreference::System);
    assert_eq!(user.created_at, 1000);
}

#[test]
fn error_messages_read_as_expected() {
    assert_eq!(ServerError::InvalidCredentials.message(), "Invalid username or password");
    assert_eq!(ServerError::Forbidden.message(), "Forbidden");
    assert_eq!(ServerError::NotFound.message(), "Not found");
}
