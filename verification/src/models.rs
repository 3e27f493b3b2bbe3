//! User, session and post records, and the snapshot relation between them.
//!
//! Timestamps are unix seconds; the clock itself lives with the caller, so
//! every operation that needs the time takes it as an argument.

use vstd::prelude::*;

use crate::theme::ThemePreference;

verus! {

/// A persistent user account. `password_hash` is the PHC string the password
/// hasher produced; it never appears in any client-facing value.
#[derive(Debug)]
pub struct User {
    pub id: i64,
    pub username: String,
    pub password_hash: String,
    pub is_admin: bool,
    pub created_at: u64,
    pub theme_preference: ThemePreference,
}

/// The identity snapshot a session row carries. `id` and `username` are
/// absent for anonymous (theme-only) sessions. The snapshot is a cache of the
/// `User` row: it may go stale until the next resolution refresh, and no
/// authorization decision trusts it without re-fetching the user.
#[derive(Debug)]
pub struct SessionUser {
    pub id: Option<i64>,
    pub username: Option<String>,
    pub is_admin: bool,
    pub theme_preference: ThemePreference,
}

/// A blog post.
#[derive(Debug)]
pub struct Post {
    pub id: i64,
    pub title: String,
    pub content: String,
    pub created_at: u64,
    pub updated_at: u64,
    pub published: bool,
}

/// The fields a caller supplies to create a post.
#[derive(Debug)]
pub struct NewPost {
    pub title: String,
    pub content: String,
    pub published: bool,
}

/// The fields a caller supplies to rewrite an existing post.
#[derive(Debug)]
pub struct UpdatePostData {
    pub id: i64,
    pub title: String,
    pub content: String,
    pub published: bool,
}

/// The registration request: a username and a plain password.
#[derive(Debug)]
pub struct NewUser {
    pub username: String,
    pub password: String,
}

/// The login request: a username and a plain password.
#[derive(Debug)]
pub struct LoginCredentials {
    pub username: String,
    pub password: String,
}

/// The session snapshot a user resolves to.
pub open spec fn spec_snapshot(u: User) -> SessionUser {
    SessionUser {
        id: Some(u.id),
        username: Some(u.username),
        is_admin: u.is_admin,
        theme_preference: u.theme_preference,
    }
}

/// Snapshot equality, over the string views: the relation the cache-coherency
/// refresh of the session row decides by.
pub open spec fn spec_session_user_eq(a: SessionUser, b: SessionUser) -> bool {
    &&& a.id == b.id
    &&& a.username.deep_view() == b.username.deep_view()
    &&& a.is_admin == b.is_admin
    &&& a.theme_preference == b.theme_preference
}

impl Clone for User {
    fn clone(&self) -> (r: Self)
        ensures
            r == *self,
    {
        User {
            id: self.id,
            username: self.username.clone(),
            password_hash: self.password_hash.clone(),
            is_admin: self.is_admin,
            created_at: self.created_at,
            theme_preference: self.theme_preference,
        }
    }
}

impl Clone for SessionUser {
    fn clone(&self) -> (r: Self)
        ensures
            r == *self,
    {
        SessionUser {
            id: self.id,
            username: match &self.username {
                Some(s) => Some(s.clone()),
                None => None,
            },
            is_admin: self.is_admin,
            theme_preference: self.theme_preference,
        }
    }
}

impl Clone for Post {
    fn clone(&self) -> (r: Self)
        ensures
            r == *self,
    {
        Post {
            id: self.id,
            title: self.title.clone(),
            content: self.content.clone(),
            created_at: self.created_at,
            updated_at: self.updated_at,
            published: self.published,
        }
    }
}

impl User {
    /// The session snapshot written for this user at login and refresh.
    pub fn get_session_user(&self) -> (r: SessionUser)
        ensures
            r == spec_snapshot(*self),
    {
        SessionUser {
            id: Some(self.id),
            username: Some(self.username.clone()),
            is_admin: self.is_admin,
            theme_preference: self.theme_preference,
        }
    }
}

/// Decides snapshot equality, as `spec_session_user_eq` states it.
pub fn session_user_eq(a: &SessionUser, b: &SessionUser) -> (r: bool)
    ensures
        r == spec_session_user_eq(*a, *b),
{
    let id_eq = match (a.id, b.id) {
        (Some(x), Some(y)) => x == y,
        (None, None) => true,
        _ => false,
    };
    let name_eq = match (&a.username, &b.username) {
        (Some(x), Some(y)) => *x == *y,
        (None, None) => true,
        _ => false,
    };
    id_eq && name_eq && a.is_admin == b.is_admin && a.theme_preference == b.theme_preference
}

} // verus!
