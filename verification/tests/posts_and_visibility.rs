use blog_core::errors::ServerError;
use blog_core::models::{LoginCredentials, NewPost, NewUser, UpdatePostData};
use blog_core::service::BlogServer;

fn server_with_admin_and_reader() -> (BlogServer, String, String) {
    let mut server = BlogServer::new();
    server
        .register(NewUser { username: "admin".to_string(), password: "adminpass1".to_string() }, 100)
        .unwrap();
    server
        .register(
            NewUser { username: "reader".to_string(), password: "readerpass1".to_string() },
            101,
        )
        .unwrap();
    let admin_id = server.users.find_by_username("admin").unwrap().id;
    server.users.set_admin(admin_id, true);
    let (_, admin_handle) = server
        .login(
            LoginCredentials { username: "admin".to_string(), password: "adminpass1".to_string() },
            None,
            200,
        )
        .unwrap();
    let (_, reader_handle) = server
        .login(
            LoginCredentials {
                username: "reader".to_string(),
                password: "readerpass1".to_string(),
            },
            None,
            201,
        )
        .unwrap();
    (server, admin_handle.token, reader_handle.token)
}

fn post(title: &str, published: bool) -> NewPost {
    NewPost { title: title.to_string(), content: format!("content of {}", title), published }
}

#[test]
fn non_admin_create_post_forbidden_then_promotion_grants_it() {
    let mut server = BlogServer::new();
    server
        .register(NewUser { username: "carol".to_string(), password: "carolpass1".to_string() }, 100)
        .unwrap();
    let (user, handle) = server
        .login(
            LoginCredentials { username: "carol".to_string(), password: "carolpass1".to_string() },
            None,
            200,
        )
        .unwrap();
    let denied = server.create_post(post("first", true), Some(&handle.token), 300);
    assert_eq!(denied.unwrap_err(), ServerError::Forbidden);
    // promote directly in the store, same cookie
    server.users.set_admin(user.id, true);
    let created = server.create_post(post("first", true), Some(&handle.token), 301).unwrap();
    assert_eq!(created.id, 1);
    assert_eq!(created.title, "first");
    let again = server.create_post(post("second", true), Some(&handle.token), 302).unwrap();
    assert_eq!(again.id, 2, "each post gets a new id");
}

#[test]
fn unpublished_post_hidden_from_non_admins() {
    let (mut server, admin, reader) = server_with_admin_and_reader();
    let draft = server.create_post(post("draft", false), Some(&admin), 300).unwrap();
    // anonymous caller: not found, not forbidden
    assert_eq!(server.get_post(draft.id, None, 301).unwrap_err(), ServerError::NotFound);
    // authenticated non-admin: still not found
    assert_eq!(
        server.get_post(draft.id, Some(&reader), 301).unwrap_err(),
        ServerError::NotFound
    );
    // admin sees it
    let seen = server.get_post(draft.id, Some(&admin), 301).unwrap();
    assert_eq!(seen.id, draft.id);
    assert_eq!(seen.title, "draft");
}

#[test]
fn published_post_visible_to_everyone() {
    let (mut server, admin, reader) = server_with_admin_and_reader();
    let p = server.create_post(post("hello", true), Some(&admin), 300).unwrap();
    assert_eq!(server.get_post(p.id, None, 301).unwrap().title, "hello");
    assert_eq!(server.get_post(p.id, Some(&reader), 301).unwrap().title, "hello");
}

#[test]
fn missing_post_is_not_found_even_for_admin() {
    let (mut server, admin, _) = server_with_admin_and_reader();
    let _ = &mut server;
    assert_eq!(server.get_post(99, Some(&admin), 301).unwrap_err(), ServerError::NotFound);
}

#[test]
fn listing_is_newest_first_and_respects_published_filter() {
    let (mut server, admin, _) = server_with_admin_and_reader();
    server.create_post(post("one", true), Some(&admin), 300).unwrap();
    server.create_post(post("two", false), Some(&admin), 301).unwrap();
    server.create_post(post("three", true), Some(&admin), 302).unwrap();
    let public = server.get_posts(true);
    let titles: Vec<&str> = public.iter().map(|p| p.title.as_str()).collect();
    assert_eq!(titles, vec!["three", "one"]);
    let all = server.get_posts(false);
    let titles: Vec<&str> = all.iter().map(|p| p.title.as_str()).collect();
    assert_eq!(titles, vec!["three", "two", "one"]);
}

#[test]
fn update_post_rewrites_and_keeps_creation_time() {
    let (mut server, admin, reader) = server_with_admin_and_reader();
    let p = server.create_post(post("old title", false), Some(&admin), 300).unwrap();
    let update = |published: bool| UpdatePostData {
        id: p.id,
        title: "new title".to_string(),
        content: "new content".to_string(),
        published,
    };
    let denied = server.update_post(update(true), Some(&reader), 400);
    assert_eq!(denied.unwrap_err(), ServerError::Forbidden);
    let updated = server.update_post(update(true), Some(&admin), 400).unwrap();
    assert_eq!(updated.title, "new title");
    assert_eq!(updated.content, "new content");
    assert!(updated.published);
    assert_eq!(updated.created_at, 300, "creation time survives the rewrite");
    assert_eq!(updated.updated_at, 400);
    // the stored row changed too
    let fetched = server.get_post(p.id, None, 401).unwrap();
    assert_eq!(fetched.title, "new title");
}

#[test]
fn update_missing_post_not_found() {
    let (mut server, admin, _) = server_with_admin_and_reader();
    let update = UpdatePostData {
        id: 42,
        title: "x".to_string(),
        content: "y".to_string(),
        published: true,
    };
    assert_eq!(server.update_post(update, Some(&admin), 400).unwrap_err(), ServerError::NotFound);
}

#[test]
fn delete_post_removes_and_second_delete_not_found() {
    let (mut server, admin, reader) = server_with_admin_and_reader();
    let p = server.create_post(post("doomed", true), Some(&admin), 300).unwrap();
    assert_eq!(
        server.delete_post(p.id, Some(&reader), 400).unwrap_err(),
        ServerError::Forbidden
    );
    server.delete_post(p.id, Some(&admin), 400).unwrap();
    assert_eq!(server.get_post(p.id, Some(&admin), 401).unwrap_err(), ServerError::NotFound);
    assert_eq!(server.delete_post(p.id, Some(&admin), 402).unwrap_err(), ServerError::NotFound);
}
