//! The auth service and the endpoints built on it.
//!
//! One value of `BlogServer` holds the three stores; every endpoint takes
//! the caller's session token (as pulled from the cookie) and the current
//! time, and reports through a `SessionHandle` when a `Set-Cookie` must go
//! out. Every authorization decision re-fetches the user row by id — the
//! snapshot cached on the session row is a display hint, never an authority.

use vstd::prelude::*;

use crate::errors::ServerError;
use crate::hasher;
use crate::hasher::password_matches;
use crate::models::{
    spec_session_user_eq, spec_snapshot, session_user_eq, LoginCredentials, NewPost, NewUser, Post,
    SessionUser, UpdatePostData, User,
};
use crate::posts::{spec_find_post, spec_listing, spec_rewrite, spec_without, PostStore};
use crate::sessions::{map_resolve, SessionStore, SESSION_TTL_SECONDS};
use crate::theme::ThemePreference;
use crate::users::{
    spec_find_by_id, spec_find_by_username, spec_set_theme, CredentialStore,
};

verus! {

/// The server re-validates this minimum password length at registration,
/// independent of any client-side check.
pub const MIN_PASSWORD_CHARS: usize = 8;

/// What a theme probe answers: the decided preference, and the client-hint
/// suggestion handed back unchanged.
#[derive(Debug)]
pub struct GetThemePreferenceResponse {
    pub theme_preference: ThemePreference,
    pub theme_preference_header: Option<ThemePreference>,
}

/// The session token an operation wrote. When `fresh` holds, the token was
/// newly minted and the client must be sent the matching `Set-Cookie`;
/// otherwise the client already carries it.
#[derive(Debug)]
pub struct SessionHandle {
    pub token: String,
    pub fresh: bool,
}

/// The server state: the three stores, constructed once at process start
/// and passed to every handler.
#[derive(Debug)]
pub struct BlogServer {
    pub users: CredentialStore,
    pub sessions: SessionStore,
    pub posts: PostStore,
}

impl BlogServer {
    /// All three stores are well formed.
    pub open spec fn wf(self) -> bool {
        self.users.wf() && self.sessions.wf() && self.posts.wf()
    }

    /// A fresh server with empty stores.
    pub fn new() -> (r: Self)
        ensures
            r.wf(),
            r.users.users_seq() == Seq::<User>::empty(),
            r.sessions@ == Map::<Seq<char>, (SessionUser, u64)>::empty(),
            r.posts.posts_seq() == Seq::<Post>::empty(),
    {
        BlogServer {
            users: CredentialStore::new(),
            sessions: SessionStore::new(),
            posts: PostStore::new(),
        }
    }

    /// The identity snapshot the caller's token resolves to at `now`.
    pub open spec fn spec_session_of(self, token: Option<&String>, now: u64) -> Option<
        SessionUser,
    > {
        match token {
            Some(t) => map_resolve(self.sessions@, t@, now),
            None => None,
        }
    }

    /// The authoritative user behind the caller's session: the user row
    /// re-fetched by the id the session carries.
    pub open spec fn spec_current_user(self, token: Option<&String>, now: u64) -> Option<User> {
        match self.spec_session_of(token, now) {
            Some(su) => match su.id {
                Some(uid) => spec_find_by_id(self.users.users_seq(), uid),
                None => None,
            },
            None => None,
        }
    }

    /// Whether the caller is an admin — decided on the re-fetched user row,
    /// never on the cached session snapshot.
    pub open spec fn spec_is_admin(self, token: Option<&String>, now: u64) -> bool {
        match self.spec_current_user(token, now) {
            Some(u) => u.is_admin,
            None => false,
        }
    }

    /// The user a login with these credentials resolves to: the user named,
    /// provided the password verifies against the stored hash.
    pub open spec fn spec_login_user(self, username: Seq<char>, password: Seq<char>) -> Option<
        User,
    > {
        match spec_find_by_username(self.users.users_seq(), username) {
            Some(u) => if password_matches(password, u.password_hash@) {
                Some(u)
            } else {
                None
            },
            None => None,
        }
    }

    /// Resolves the caller's session snapshot; an absent, unknown or expired
    /// token is an anonymous caller, never an error.
    pub fn get_user_session(&self, token: Option<&String>, now: u64) -> (r: Option<SessionUser>)
        requires
            self.wf(),
        ensures
            r == self.spec_session_of(token, now),
    {
        match token {
            Some(t) => self.sessions.resolve(t.as_str(), now),
            None => None,
        }
    }

    /// Writes the snapshot under the caller's token — renewing a valid
    /// session in place, minting a fresh token otherwise — with a full
    /// lifetime from `now`.
    pub fn set_user_session(&mut self, token: Option<&String>, user: SessionUser, now: u64) -> (r:
        SessionHandle)
        requires
            old(self).wf(),
            now + SESSION_TTL_SECONDS <= u64::MAX,
        ensures
            final(self).wf(),
            final(self).users == old(self).users,
            final(self).posts == old(self).posts,
            final(self).sessions@ == old(self).sessions@.insert(
                r.token@,
                (user, (now + SESSION_TTL_SECONDS) as u64),
            ),
            match token {
                Some(t) => if map_resolve(old(self).sessions@, t@, now) is Some {
                    r.token@ == t@ && !r.fresh
                } else {
                    r.fresh
                },
                None => r.fresh,
            },
    {
        let minted = self.sessions.create_or_renew(token, user, now);
        SessionHandle { token: minted.0, fresh: minted.1 }
    }

    /// Deletes the caller's session row, if there is one. Idempotent, and
    /// silent on unknown tokens.
    pub fn clear_user(&mut self, token: Option<&String>)
        requires
            old(self).wf(),
        ensures
            final(self).wf(),
            final(self).users == old(self).users,
            final(self).posts == old(self).posts,
            final(self).sessions@ == (match token {
                Some(t) => old(self).sessions@.remove(t@),
                None => old(self).sessions@,
            }),
    {
        if let Some(t) = token {
            self.sessions.delete(t.as_str());
        }
    }

    /// Registers a new account: the password is re-validated for length,
    /// hashed, and the user stored without admin rights. Never logs the new
    /// user in. `PasswordTooShort` comes exactly on a short password;
    /// `UsernameTaken` only on an existing username; `StorageError` only
    /// when the hasher fails or the id space is exhausted.
    pub fn register(&mut self, new_user: NewUser, now: u64) -> (r: Result<(), ServerError>)
        requires
            old(self).wf(),
        ensures
            final(self).wf(),
            final(self).sessions == old(self).sessions,
            final(self).posts == old(self).posts,
            match r {
                Ok(_) => {
                    &&& new_user.password@.len() >= MIN_PASSWORD_CHARS
                    &&& spec_find_by_username(old(self).users.users_seq(), new_user.username@)
                        is None
                    &&& old(self).users.spec_next_id() < i64::MAX
                    &&& final(self).users.users_seq().len() == old(self).users.users_seq().len()
                        + 1
                    &&& final(self).users.users_seq().drop_last() == old(self).users.users_seq()
                    &&& final(self).users.users_seq().last().username@ == new_user.username@
                    &&& final(self).users.users_seq().last().id == old(self).users.spec_next_id()
                    &&& final(self).users.users_seq().last().is_admin == false
                    &&& final(self).users.users_seq().last().theme_preference
                        == ThemePreference::System
                    &&& final(self).users.users_seq().last().created_at == now
                    &&& password_matches(
                        new_user.password@,
                        final(self).users.users_seq().last().password_hash@,
                    )
                },
                Err(e) => {
                    &&& final(self).users == old(self).users
                    &&& (e == ServerError::PasswordTooShort <==> new_user.password@.len()
                        < MIN_PASSWORD_CHARS)
                    &&& (e == ServerError::UsernameTaken <==> (new_user.password@.len()
                        >= MIN_PASSWORD_CHARS && spec_find_by_username(
                        old(self).users.users_seq(),
                        new_user.username@,
                    ) is Some))
                    &&& (e == ServerError::PasswordTooShort || e == ServerError::UsernameTaken
                        || e == ServerError::StorageError)
                },
            },
            r is Ok ==> (new_user.password@.len() >= MIN_PASSWORD_CHARS && spec_find_by_username(
                old(self).users.users_seq(),
                new_user.username@,
            ) is None && old(self).users.spec_next_id() < i64::MAX),
    {
        if new_user.password.as_str().unicode_len() < MIN_PASSWORD_CHARS {
            return Err(ServerError::PasswordTooShort);
        }
        if self.users.find_by_username(new_user.username.as_str()).is_some() {
            return Err(ServerError::UsernameTaken);
        }
        let password_hash = match hasher::hash(new_user.password.as_str()) {
            Some(h) => h,
            None => {
                return Err(ServerError::StorageError);
            },
        };
        match self.users.create_user(new_user.username, password_hash, now) {
            Ok(_) => {
                proof {
                    assert(self.users.users_seq().drop_last() =~= old(self).users.users_seq());
                }
                Ok(())
            },
            Err(e) => Err(e),
        }
    }

    /// Logs a user in. An unknown username and a wrong password fail with
    /// the same `InvalidCredentials`. On success the session snapshot is
    /// written under the caller's token (renewed in place when valid, fresh
    /// otherwise) and the full user record is returned.
    pub fn login(
        &mut self,
        credentials: LoginCredentials,
        token: Option<&String>,
        now: u64,
    ) -> (r: Result<(User, SessionHandle), ServerError>)
        requires
            old(self).wf(),
            now + SESSION_TTL_SECONDS <= u64::MAX,
        ensures
            final(self).wf(),
            final(self).users == old(self).users,
            final(self).posts == old(self).posts,
            match r {
                Ok((u, handle)) => {
                    &&& old(self).spec_login_user(credentials.username@, credentials.password@)
                        == Some(u)
                    &&& final(self).sessions@ == old(self).sessions@.insert(
                        handle.token@,
                        (spec_snapshot(u), (now + SESSION_TTL_SECONDS) as u64),
                    )
                    &&& (match token {
                        Some(t) => if map_resolve(old(self).sessions@, t@, now) is Some {
                            handle.token@ == t@ && !handle.fresh
                        } else {
                            handle.fresh
                        },
                        None => handle.fresh,
                    })
                },
                Err(e) => {
                    &&& e == ServerError::InvalidCredentials
                    &&& old(self).spec_login_user(
                        credentials.username@,
                        credentials.password@,
                    ) is None
                    &&& *final(self) == *old(self)
                },
            },
            r is Ok <==> old(self).spec_login_user(
                credentials.username@,
                credentials.password@,
            ) is Some,
    {
        let user = match self.users.find_by_username(credentials.username.as_str()) {
            Some(u) => u.clone(),
            None => {
                return Err(ServerError::InvalidCredentials);
            },
        };
        if !hasher::verify(credentials.password.as_str(), user.password_hash.as_str()) {
            return Err(ServerError::InvalidCredentials);
        }
        let snapshot = user.get_session_user();
        let handle = self.set_user_session(token, snapshot, now);
        Ok((user, handle))
    }

    /// Logs the caller out: the session row is deleted and the cookie is to
    /// be cleared. Always succeeds, session or not.
    pub fn logout(&mut self, token: Option<&String>)
        requires
            old(self).wf(),
        ensures
            final(self).wf(),
            final(self).users == old(self).users,
            final(self).posts == old(self).posts,
            final(self).sessions@ == (match token {
                Some(t) => old(self).sessions@.remove(t@),
                None => old(self).sessions@,
            }),
    {
        self.clear_user(token);
    }

    /// Resolves who the caller is: the user row re-fetched by the session's
    /// user id. When the cached snapshot has gone stale against that row,
    /// the session is opportunistically re-written in place — a
    /// cache-coherency refresh, not a security decision.
    pub fn get_current_user(&mut self, token: Option<&String>, now: u64) -> (r: Option<User>)
        requires
            old(self).wf(),
            now + SESSION_TTL_SECONDS <= u64::MAX,
        ensures
            final(self).wf(),
            final(self).users == old(self).users,
            final(self).posts == old(self).posts,
            r == old(self).spec_current_user(token, now),
            match r {
                Some(u) => if !spec_session_user_eq(
                    old(self).spec_session_of(token, now)->Some_0,
                    spec_snapshot(u),
                ) {
                    final(self).sessions@ == old(self).sessions@.insert(
                        token->Some_0@,
                        (spec_snapshot(u), (now + SESSION_TTL_SECONDS) as u64),
                    )
                } else {
                    final(self).sessions == old(self).sessions
                },
                None => final(self).sessions == old(self).sessions,
            },
    {
        let su = match self.get_user_session(token, now) {
            Some(su) => su,
            None => {
                return None;
            },
        };
        let uid = match su.id {
            Some(uid) => uid,
            None => {
                return None;
            },
        };
        let user = match self.users.find_by_id(uid) {
            Some(u) => u.clone(),
            None => {
                return None;
            },
        };
        let snapshot = user.get_session_user();
        if !session_user_eq(&snapshot, &su) {
            self.set_user_session(token, snapshot, now);
        }
        Some(user)
    }

    /// The authorization guard for every mutating endpoint: resolves the
    /// session, re-fetches the user row, and yields it only when that row
    /// says admin. Anything else — no session, anonymous session, vanished
    /// user, non-admin — is `Forbidden`.
    pub fn require_admin(&self, token: Option<&String>, now: u64) -> (r: Result<User, ServerError>)
        requires
            self.wf(),
        ensures
            match r {
                Ok(u) => self.spec_current_user(token, now) == Some(u) && u.is_admin,
                Err(e) => e == ServerError::Forbidden && !self.spec_is_admin(token, now),
            },
            r is Ok <==> self.spec_is_admin(token, now),
    {
        let su = match self.get_user_session(token, now) {
            Some(su) => su,
            None => {
                return Err(ServerError::Forbidden);
            },
        };
        let uid = match su.id {
            Some(uid) => uid,
            None => {
                return Err(ServerError::Forbidden);
            },
        };
        let user = match self.users.find_by_id(uid) {
            Some(u) => u.clone(),
            None => {
                return Err(ServerError::Forbidden);
            },
        };
        if user.is_admin {
            Ok(user)
        } else {
            Err(ServerError::Forbidden)
        }
    }

    /// Lists posts, newest first; restricted to published ones on demand.
    pub fn get_posts(&self, only_published: bool) -> (r: Vec<Post>)
        ensures
            r@ == spec_listing(self.posts.posts_seq(), only_published),
    {
        self.posts.list(only_published)
    }

    /// Fetches one post. An unpublished post is handed out only to an admin
    /// caller; for everyone else it is `NotFound` — indistinguishable from
    /// a post that does not exist, so unpublished content does not leak.
    pub fn get_post(&self, id: i64, token: Option<&String>, now: u64) -> (r: Result<
        Post,
        ServerError,
    >)
        requires
            self.wf(),
        ensures
            match r {
                Ok(p) => spec_find_post(self.posts.posts_seq(), id) == Some(p) && (p.published
                    || self.spec_is_admin(token, now)),
                Err(e) => {
                    &&& e == ServerError::NotFound
                    &&& (match spec_find_post(self.posts.posts_seq(), id) {
                        Some(p) => !p.published && !self.spec_is_admin(token, now),
                        None => true,
                    })
                },
            },
            r is Ok <==> (spec_find_post(self.posts.posts_seq(), id) matches Some(p) && (
            p.published || self.spec_is_admin(token, now))),
    {
        let post = match self.posts.get(id) {
            Some(p) => p.clone(),
            None => {
                return Err(ServerError::NotFound);
            },
        };
        if !post.published {
            if self.require_admin(token, now).is_err() {
                return Err(ServerError::NotFound);
            }
        }
        Ok(post)
    }

    /// Creates a post — admin only, checked against the re-fetched user row
    /// before anything is written.
    pub fn create_post(&mut self, new_post: NewPost, token: Option<&String>, now: u64) -> (r:
        Result<Post, ServerError>)
        requires
            old(self).wf(),
        ensures
            final(self).wf(),
            final(self).users == old(self).users,
            final(self).sessions == old(self).sessions,
            match r {
                Ok(p) => {
                    &&& old(self).spec_is_admin(token, now)
                    &&& p == (Post {
                        id: old(self).posts.spec_next_id(),
                        title: new_post.title,
                        content: new_post.content,
                        created_at: now,
                        updated_at: now,
                        published: new_post.published,
                    })
                    &&& final(self).posts.posts_seq() == old(self).posts.posts_seq().push(p)
                },
                Err(e) => {
                    &&& final(self).posts == old(self).posts
                    &&& (e == ServerError::Forbidden <==> !old(self).spec_is_admin(token, now))
                    &&& (e == ServerError::Forbidden || e == ServerError::StorageError)
                },
            },
            r is Ok <==> (old(self).spec_is_admin(token, now) && old(self).posts.spec_next_id()
                < i64::MAX),
    {
        if self.require_admin(token, now).is_err() {
            return Err(ServerError::Forbidden);
        }
        self.posts.insert(new_post, now)
    }

    /// Rewrites a post — admin only. `NotFound` exactly when no post
    /// carries the id; the creation time is kept, the update time stamped.
    pub fn update_post(&mut self, data: UpdatePostData, token: Option<&String>, now: u64) -> (r:
        Result<Post, ServerError>)
        requires
            old(self).wf(),
        ensures
            final(self).wf(),
            final(self).users == old(self).users,
            final(self).sessions == old(self).sessions,
            match r {
                Ok(p) => {
                    &&& old(self).spec_is_admin(token, now)
                    &&& spec_find_post(old(self).posts.posts_seq(), data.id) matches Some(orig)
                        && p == (Post {
                        id: data.id,
                        title: data.title,
                        content: data.content,
                        created_at: orig.created_at,
                        updated_at: now,
                        published: data.published,
                    })
                    &&& final(self).posts.posts_seq() == spec_rewrite(
                        old(self).posts.posts_seq(),
                        data,
                        now,
                    )
                },
                Err(e) => {
                    &&& final(self).posts == old(self).posts
                    &&& (e == ServerError::Forbidden <==> !old(self).spec_is_admin(token, now))
                    &&& (e == ServerError::NotFound <==> (old(self).spec_is_admin(token, now)
                        && spec_find_post(old(self).posts.posts_seq(), data.id) is None))
                    &&& (e == ServerError::Forbidden || e == ServerError::NotFound)
                },
            },
            r is Ok <==> (old(self).spec_is_admin(token, now) && spec_find_post(
                old(self).posts.posts_seq(),
                data.id,
            ) is Some),
    {
        if self.require_admin(token, now).is_err() {
            return Err(ServerError::Forbidden);
        }
        match self.posts.update(data, now) {
            Some(p) => Ok(p),
            None => Err(ServerError::NotFound),
        }
    }

    /// Deletes a post — admin only. `NotFound` exactly when no post carries
    /// the id.
    pub fn delete_post(&mut self, id: i64, token: Option<&String>, now: u64) -> (r: Result<
        (),
        ServerError,
    >)
        requires
            old(self).wf(),
        ensures
            final(self).wf(),
            final(self).users == old(self).users,
            final(self).sessions == old(self).sessions,
            match r {
                Ok(_) => {
                    &&& old(self).spec_is_admin(token, now)
                    &&& spec_find_post(old(self).posts.posts_seq(), id) is Some
                    &&& final(self).posts.posts_seq() == spec_without(
                        old(self).posts.posts_seq(),
                        id,
                    )
                },
                Err(e) => {
                    &&& final(self).posts == old(self).posts
                    &&& (e == ServerError::Forbidden <==> !old(self).spec_is_admin(token, now))
                    &&& (e == ServerError::NotFound <==> (old(self).spec_is_admin(token, now)
                        && spec_find_post(old(self).posts.posts_seq(), id) is None))
                    &&& (e == ServerError::Forbidden || e == ServerError::NotFound)
                },
            },
            r is Ok <==> (old(self).spec_is_admin(token, now) && spec_find_post(
                old(self).posts.posts_seq(),
                id,
            ) is Some),
    {
        if self.require_admin(token, now).is_err() {
            return Err(ServerError::Forbidden);
        }
        if self.posts.delete(id) {
            Ok(())
        } else {
            Err(ServerError::NotFound)
        }
    }

    /// Answers a theme probe. A live session answers with its stored
    /// preference; an anonymous caller is seeded a session carrying the
    /// client hint (or the default), and the fresh cookie goes out.
    pub fn get_theme_preference(
        &mut self,
        token: Option<&String>,
        hint: Option<ThemePreference>,
        now: u64,
    ) -> (r: (GetThemePreferenceResponse, Option<SessionHandle>))
        requires
            old(self).wf(),
            now + SESSION_TTL_SECONDS <= u64::MAX,
        ensures
            final(self).wf(),
            final(self).users == old(self).users,
            final(self).posts == old(self).posts,
            r.0.theme_preference_header == hint,
            match old(self).spec_session_of(token, now) {
                Some(su) => {
                    &&& r.0.theme_preference == su.theme_preference
                    &&& r.1 is None
                    &&& final(self).sessions == old(self).sessions
                },
                None => {
                    &&& r.0.theme_preference == (match hint {
                        Some(t) => t,
                        None => ThemePreference::System,
                    })
                    &&& r.1 matches Some(h) && h.fresh && final(self).sessions@ == old(
                        self,
                    ).sessions@.insert(
                        h.token@,
                        (
                            (SessionUser {
                                id: None,
                                username: None,
                                is_admin: false,
                                theme_preference: r.0.theme_preference,
                            }),
                            (now + SESSION_TTL_SECONDS) as u64,
                        ),
                    )
                },
            },
    {
        match self.get_user_session(token, now) {
            Some(su) => (
                GetThemePreferenceResponse {
                    theme_preference: su.theme_preference,
                    theme_preference_header: hint,
                },
                None,
            ),
            None => {
                let theme = match hint {
                    Some(t) => t,
                    None => ThemePreference::System,
                };
                let handle = self.set_user_session(
                    token,
                    SessionUser { id: None, username: None, is_admin: false, theme_preference: theme },
                    now,
                );
                (
                    GetThemePreferenceResponse {
                        theme_preference: theme,
                        theme_preference_header: hint,
                    },
                    Some(handle),
                )
            },
        }
    }

    /// Stores a theme choice. A live session is renewed in place with the
    /// new preference — and when it belongs to a user, the user row is
    /// updated too, so the choice survives this session. A matching stored
    /// preference is left untouched. An anonymous caller is seeded a
    /// session, and the fresh cookie goes out.
    pub fn set_theme_preference(
        &mut self,
        theme_preference: ThemePreference,
        token: Option<&String>,
        now: u64,
    ) -> (r: Option<SessionHandle>)
        requires
            old(self).wf(),
            now + SESSION_TTL_SECONDS <= u64::MAX,
        ensures
            final(self).wf(),
            final(self).posts == old(self).posts,
            match old(self).spec_session_of(token, now) {
                Some(su) => if su.theme_preference == theme_preference {
                    &&& *final(self) == *old(self)
                    &&& r is None
                } else {
                    &&& r is None
                    &&& final(self).sessions@ == old(self).sessions@.insert(
                        token->Some_0@,
                        (
                            (SessionUser { theme_preference, ..su }),
                            (now + SESSION_TTL_SECONDS) as u64,
                        ),
                    )
                    &&& final(self).users.users_seq() == (match su.id {
                        Some(uid) => spec_set_theme(
                            old(self).users.users_seq(),
                            uid,
                            theme_preference,
                        ),
                        None => old(self).users.users_seq(),
                    })
                },
                None => {
                    &&& final(self).users == old(self).users
                    &&& r matches Some(h) && h.fresh && final(self).sessions@ == old(
                        self,
                    ).sessions@.insert(
                        h.token@,
                        (
                            (SessionUser {
                                id: None,
                                username: None,
                                is_admin: false,
                                theme_preference,
                            }),
                            (now + SESSION_TTL_SECONDS) as u64,
                        ),
                    )
                },
            },
    {
        match self.get_user_session(token, now) {
            Some(su) => {
                if su.theme_preference == theme_preference {
                    return None;
                }
                let uid_opt = su.id;
                let updated = SessionUser { theme_preference, ..su };
                self.set_user_session(token, updated, now);
                if let Some(uid) = uid_opt {
                    self.users.update_theme(uid, theme_preference);
                }
                None
            },
            None => {
                let handle = self.set_user_session(
                    token,
                    SessionUser {
                        id: None,
                        username: None,
                        is_admin: false,
                        theme_preference,
                    },
                    now,
                );
                Some(handle)
            },
        }
    }
}

/// A fresh registration can log in with its own password: in any server
/// state whose user store has just been extended by a record for a username
/// that was new, and whose stored hash verifies `password` — exactly what a
/// successful `register` leaves behind — login resolution for that username
/// and password yields that record.
pub proof fn lemma_register_enables_login(server: BlogServer, password: Seq<char>)
    requires
        server.users.users_seq().len() > 0,
        spec_find_by_username(
            server.users.users_seq().drop_last(),
            server.users.users_seq().last().username@,
        ) is None,
        password_matches(password, server.users.users_seq().last().password_hash@),
    ensures
        server.spec_login_user(server.users.users_seq().last().username@, password) == Some(
            server.users.users_seq().last(),
        ),
{
    let users = server.users.users_seq();
    let u = users.last();
    crate::users::lemma_find_username_push(users.drop_last(), u);
    assert(users.drop_last().push(u) =~= users);
}

} // verus!
