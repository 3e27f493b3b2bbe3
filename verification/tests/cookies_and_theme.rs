use blog_core::cookie::{clear_cookie_value, extract_session_token, session_cookie_value};
use blog_core::models::{LoginCredentials, NewUser};
use blog_core::service::BlogServer;
use blog_core::theme::ThemePreference;

#[test]
fn cookie_value_carries_security_attributes() {
    assert_eq!(
        session_cookie_value("abc123"),
        "session=abc123; Path=/; HttpOnly; SameSite=Strict; Max-Age=86400"
    );
}

#[test]
fn clear_cookie_expires_in_the_past() {
    assert_eq!(
        clear_cookie_value(),
        "session=; Path=/; HttpOnly; SameSite=Strict; Expires=Thu, 01 Jan 1970 00:00:00 GMT"
    );
}

#[test]
fn extract_finds_lone_entry() {
    assert_eq!(extract_session_token("session=tok123").as_deref(), Some("tok123"));
}

#[test]
fn extract_finds_entry_among_others() {
    assert_eq!(
        extract_session_token("a=b; session=tok123; c=d").as_deref(),
        Some("tok123")
    );
    assert_eq!(extract_session_token("a=b; c=d; session=last").as_deref(), Some("last"));
}

#[test]
fn extract_round_trips_a_set_cookie() {
    // the value we set is the value we parse back out
    let header = session_cookie_value("fe1a-22");
    assert_eq!(extract_session_token(&header).as_deref(), Some("fe1a-22"));
}

#[test]
fn extract_absent_entry_is_none() {
    assert_eq!(extract_session_token(""), None);
    assert_eq!(extract_session_token("a=b; c=d"), None);
    assert_eq!(extract_session_token("sessionx=y"), None);
    assert_eq!(extract_session_token("x=session=y"), None);
}

#[test]
fn extract_respects_entry_boundaries() {
    assert_eq!(extract_session_token("sessionx=y; session=z").as_deref(), Some("z"));
    assert_eq!(extract_session_token("  session=spaced").as_deref(), Some("spaced"));
    assert_eq!(extract_session_token("session=").as_deref(), Some(""));
    assert_eq!(extract_session_token("session=a; session=b").as_deref(), Some("a"));
}

#[test]
fn theme_default_is_system() {
    assert_eq!(ThemePreference::default(), ThemePreference::System);
}

#[test]
fn theme_names_parse_strictly() {
    assert_eq!(ThemePreference::from_str("light"), Ok(ThemePreference::Light));
    assert_eq!(ThemePreference::from_str("dark"), Ok(ThemePreference::Dark));
    assert_eq!(ThemePreference::from_str("system"), Ok(ThemePreference::System));
    assert_eq!(ThemePreference::from_str("Light"), Err(()));
    assert_eq!(ThemePreference::from_str(""), Err(()));
}

#[test]
fn stored_theme_decodes_leniently() {
    assert_eq!(ThemePreference::from_stored_str("light"), ThemePreference::Light);
    assert_eq!(ThemePreference::from_stored_str("dark"), ThemePreference::Dark);
    assert_eq!(ThemePreference::from_stored_str("system"), ThemePreference::System);
    assert_eq!(ThemePreference::from_stored_str("garbage"), ThemePreference::System);
}

#[test]
fn theme_names_round_trip() {
    for theme in [ThemePreference::System, ThemePreference::Light, ThemePreference::Dark] {
        assert_eq!(ThemePreference::from_str(theme.as_str()), Ok(theme));
        assert_eq!(ThemePreference::from_stored_str(theme.as_str()), theme);
    }
}

#[test]
fn anonymous_theme_probe_seeds_session_with_hint() {
    let mut server = BlogServer::new();
    let (response, handle) =
        server.get_theme_preference(None, Some(ThemePreference::Dark), 1000);
    assert_eq!(response.theme_preference, ThemePreference::Dark);
    assert_eq!(response.theme_preference_header, Some(ThemePreference::Dark));
    let handle = handle.expect("an anonymous probe seeds a session");
    assert!(handle.fresh);
    // the seeded session answers later probes without a new cookie
    let (response, again) = server.get_theme_preference(Some(&handle.token), None, 1001);
    assert_eq!(response.theme_preference, ThemePreference::Dark);
    assert!(again.is_none());
}

#[test]
fn anonymous_theme_probe_without_hint_defaults_to_system() {
    let mut server = BlogServer::new();
    let (response, handle) = server.get_theme_preference(None, None, 1000);
    assert_eq!(response.theme_preference, ThemePreference::System);
    assert_eq!(response.theme_preference_header, None);
    assert!(handle.is_some());
}

#[test]
fn set_theme_for_anonymous_caller_seeds_session() {
    let mut server = BlogServer::new();
    let handle = server.set_theme_preference(ThemePreference::Light, None, 1000);
    let handle = handle.expect("an anonymous theme change seeds a session");
    let (response, _) = server.get_theme_preference(Some(&handle.token), None, 1001);
    assert_eq!(response.theme_preference, ThemePreference::Light);
}

#[test]
fn set_theme_for_user_persists_to_user_row() {
    let mut server = BlogServer::new();
    server
        .register(NewUser { username: "alice".to_string(), password: "longenoughpw".to_string() }, 100)
        .unwrap();
    let (user, handle) = server
        .login(
            LoginCredentials { username: "alice".to_string(), password: "longenoughpw".to_string() },
            None,
            200,
        )
        .unwrap();
    let set = server.set_theme_preference(ThemePreference::Dark, Some(&handle.token), 300);
    assert!(set.is_none(), "a live session needs no new cookie");
    // the session answers with the new theme
    let (response, _) = server.get_theme_preference(Some(&handle.token), None, 301);
    assert_eq!(response.theme_preference, ThemePreference::Dark);
    // and the user row carries it, so it survives this session
    let stored = server.users.find_by_id(user.id).unwrap();
    assert_eq!(stored.theme_preference, ThemePreference::Dark);
    // setting the same value again is a no-op
    let set = server.set_theme_preference(ThemePreference::Dark, Some(&handle.token), 302);
    assert!(set.is_none());
}
