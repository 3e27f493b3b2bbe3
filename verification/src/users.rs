//! The credential store: user records with store-generated, never-reused ids
//! and unique usernames.

use vstd::prelude::*;

use crate::errors::ServerError;
use crate::models::User;
use crate::theme::ThemePreference;

verus! {

/// The first user record whose username reads `name`.
pub open spec fn spec_find_by_username(users: Seq<User>, name: Seq<char>) -> Option<User>
    decreases users.len(),
{
    if users.len() == 0 {
        None
    } else if users[0].username@ == name {
        Some(users[0])
    } else {
        spec_find_by_username(users.drop_first(), name)
    }
}

/// The first user record with id `id`.
pub open spec fn spec_find_by_id(users: Seq<User>, id: i64) -> Option<User>
    decreases users.len(),
{
    if users.len() == 0 {
        None
    } else if users[0].id == id {
        Some(users[0])
    } else {
        spec_find_by_id(users.drop_first(), id)
    }
}

/// All user records with id `id` carry theme preference `theme`; everything
/// else is untouched.
pub open spec fn spec_set_theme(users: Seq<User>, id: i64, theme: ThemePreference) -> Seq<User> {
    Seq::new(
        users.len(),
        |k: int|
            if users[k].id == id {
                (User { theme_preference: theme, ..users[k] })
            } else {
                users[k]
            },
    )
}

/// All user records with id `id` carry admin flag `is_admin`.
pub open spec fn spec_set_admin(users: Seq<User>, id: i64, is_admin: bool) -> Seq<User> {
    Seq::new(
        users.len(),
        |k: int|
            if users[k].id == id {
                (User { is_admin, ..users[k] })
            } else {
                users[k]
            },
    )
}

/// Persistence for user accounts. Ids are handed out from a counter that
/// only grows, so an id is never reused; usernames are unique.
#[derive(Debug)]
pub struct CredentialStore {
    users: Vec<User>,
    next_id: i64,
}

impl CredentialStore {
    /// The stored records, in creation order.
    pub closed spec fn users_seq(self) -> Seq<User> {
        self.users@
    }

    /// The id the next created user will receive.
    pub closed spec fn spec_next_id(self) -> i64 {
        self.next_id
    }

    /// Store invariant: positive ids below the counter, no id and no
    /// username occurring twice.
    pub open spec fn wf(self) -> bool {
        &&& 1 <= self.spec_next_id()
        &&& forall|i: int|
            0 <= i < self.users_seq().len() ==> 1 <= #[trigger] self.users_seq()[i].id
                < self.spec_next_id()
        &&& forall|i: int, j: int|
            0 <= i < j < self.users_seq().len() ==> #[trigger] self.users_seq()[i].id
                != #[trigger] self.users_seq()[j].id
        &&& forall|i: int, j: int|
            0 <= i < j < self.users_seq().len() ==> #[trigger] self.users_seq()[i].username@
                != #[trigger] self.users_seq()[j].username@
    }

    /// An empty store.
    pub fn new() -> (r: Self)
        ensures
            r.wf(),
            r.users_seq() == Seq::<User>::empty(),
            r.spec_next_id() == 1,
    {
        CredentialStore { users: Vec::new(), next_id: 1 }
    }

    /// Creates a user with a fresh id, no admin rights and the default theme.
    /// Fails with `UsernameTaken` exactly when the username exists, and with
    /// `StorageError` exactly when the id space is exhausted.
    pub fn create_user(&mut self, username: String, password_hash: String, created_at: u64) -> (r:
        Result<i64, ServerError>)
        requires
            old(self).wf(),
        ensures
            final(self).wf(),
            final(self).spec_next_id() >= old(self).spec_next_id(),
            match r {
                Ok(id) => {
                    &&& spec_find_by_username(old(self).users_seq(), username@) is None
                    &&& old(self).spec_next_id() < i64::MAX
                    &&& id == old(self).spec_next_id()
                    &&& final(self).users_seq() == old(self).users_seq().push(
                        (User {
                            id,
                            username,
                            password_hash,
                            is_admin: false,
                            created_at,
                            theme_preference: ThemePreference::System,
                        }),
                    )
                    &&& final(self).spec_next_id() == id + 1
                },
                Err(e) => {
                    &&& *final(self) == *old(self)
                    &&& (e == ServerError::UsernameTaken <==> spec_find_by_username(
                        old(self).users_seq(),
                        username@,
                    ) is Some)
                    &&& (e == ServerError::UsernameTaken || e == ServerError::StorageError)
                },
            },
            r is Ok <==> (spec_find_by_username(old(self).users_seq(), username@) is None && old(
                self,
            ).spec_next_id() < i64::MAX),
    {
        if self.find_by_username(username.as_str()).is_some() {
            return Err(ServerError::UsernameTaken);
        }
        if self.next_id == i64::MAX {
            return Err(ServerError::StorageError);
        }
        let id = self.next_id;
        let user = User {
            id,
            username,
            password_hash,
            is_admin: false,
            created_at,
            theme_preference: ThemePreference::System,
        };
        proof {
            lemma_find_username_none(self.users@, user.username@);
        }
        self.users.push(user);
        self.next_id = id + 1;
        Ok(id)
    }

    /// Looks a user up by username.
    pub fn find_by_username(&self, username: &str) -> (r: Option<&User>)
        ensures
            match r {
                Some(u) => spec_find_by_username(self.users_seq(), username@) == Some(*u),
                None => spec_find_by_username(self.users_seq(), username@) is None,
            },
    {
        let ghost s = self.users@;
        proof {
            assert(s.skip(0) =~= s);
        }
        let n = self.users.len();
        let mut i: usize = 0;
        while i < n
            invariant
                i <= n,
                n == s.len(),
                s == self.users@,
                spec_find_by_username(s, username@) == spec_find_by_username(
                    s.skip(i as int),
                    username@,
                ),
            decreases n - i,
        {
            if crate::strutil::str_eq(self.users[i].username.as_str(), username) {
                proof {
                    assert(s.skip(i as int)[0] == s[i as int]);
                }
                return Some(&self.users[i]);
            }
            proof {
                assert(s.skip(i as int).drop_first() =~= s.skip(i as int + 1));
            }
            i = i + 1;
        }
        proof {
            assert(s.skip(n as int) =~= Seq::<User>::empty());
        }
        None
    }

    /// Looks a user up by id.
    pub fn find_by_id(&self, id: i64) -> (r: Option<&User>)
        ensures
            match r {
                Some(u) => spec_find_by_id(self.users_seq(), id) == Some(*u),
                None => spec_find_by_id(self.users_seq(), id) is None,
            },
    {
        let ghost s = self.users@;
        proof {
            assert(s.skip(0) =~= s);
        }
        let n = self.users.len();
        let mut i: usize = 0;
        while i < n
            invariant
                i <= n,
                n == s.len(),
                s == self.users@,
                spec_find_by_id(s, id) == spec_find_by_id(s.skip(i as int), id),
            decreases n - i,
        {
            if self.users[i].id == id {
                proof {
                    assert(s.skip(i as int)[0] == s[i as int]);
                }
                return Some(&self.users[i]);
            }
            proof {
                assert(s.skip(i as int).drop_first() =~= s.skip(i as int + 1));
            }
            i = i + 1;
        }
        proof {
            assert(s.skip(n as int) =~= Seq::<User>::empty());
        }
        None
    }

    /// Sets the theme preference of the user with id `id`; a no-op when no
    /// such user exists.
    pub fn update_theme(&mut self, id: i64, theme: ThemePreference)
        requires
            old(self).wf(),
        ensures
            final(self).wf(),
            final(self).users_seq() == spec_set_theme(old(self).users_seq(), id, theme),
            final(self).spec_next_id() == old(self).spec_next_id(),
    {
        let ghost s = self.users@;
        let ghost nid = self.next_id;
        let n = self.users.len();
        let mut i: usize = 0;
        while i < n
            invariant
                i <= n,
                n == s.len(),
                s == self.users@,
                self.next_id == nid,
                old(self).wf(),
                s == old(self).users_seq(),
                nid == old(self).spec_next_id(),
                forall|j: int| 0 <= j < i ==> s[j].id != id,
            decreases n - i,
        {
            if self.users[i].id == id {
                let updated = User { theme_preference: theme, ..self.users[i].clone() };
                self.users[i] = updated;
                proof {
                    assert forall|k: int| 0 <= k < s.len() implies self.users@[k] == spec_set_theme(
                        s,
                        id,
                        theme,
                    )[k] by {
                        if k != i {
                            assert(old(self).users_seq() == s);
                            if k < i {
                                assert(old(self).users_seq()[k].id != old(
                                    self,
                                ).users_seq()[i as int].id);
                            } else {
                                assert(old(self).users_seq()[i as int].id != old(
                                    self,
                                ).users_seq()[k].id);
                            }
                        }
                    }
                    assert(self.users@ =~= spec_set_theme(s, id, theme));
                }
                return ;
            }
            i = i + 1;
        }
        proof {
            assert(self.users@ =~= spec_set_theme(s, id, theme));
        }
    }

    /// Sets the admin flag of the user with id `id`; a no-op when no such
    /// user exists. This is the only promotion path: there is no
    /// self-service route to admin rights.
    pub fn set_admin(&mut self, id: i64, is_admin: bool)
        requires
            old(self).wf(),
        ensures
            final(self).wf(),
            final(self).users_seq() == spec_set_admin(old(self).users_seq(), id, is_admin),
            final(self).spec_next_id() == old(self).spec_next_id(),
    {
        let ghost s = self.users@;
        let ghost nid = self.next_id;
        let n = self.users.len();
        let mut i: usize = 0;
        while i < n
            invariant
                i <= n,
                n == s.len(),
                s == self.users@,
                self.next_id == nid,
                old(self).wf(),
                s == old(self).users_seq(),
                nid == old(self).spec_next_id(),
                forall|j: int| 0 <= j < i ==> s[j].id != id,
            decreases n - i,
        {
            if self.users[i].id == id {
                let updated = User { is_admin, ..self.users[i].clone() };
                self.users[i] = updated;
                proof {
                    assert forall|k: int| 0 <= k < s.len() implies self.users@[k] == spec_set_admin(
                        s,
                        id,
                        is_admin,
                    )[k] by {
                        if k != i {
                            assert(old(self).users_seq() == s);
                            if k < i {
                                assert(old(self).users_seq()[k].id != old(
                                    self,
                                ).users_seq()[i as int].id);
                            } else {
                                assert(old(self).users_seq()[i as int].id != old(
                                    self,
                                ).users_seq()[k].id);
                            }
                        }
                    }
                    assert(self.users@ =~= spec_set_admin(s, id, is_admin));
                }
                return ;
            }
            i = i + 1;
        }
        proof {
            assert(self.users@ =~= spec_set_admin(s, id, is_admin));
        }
    }
}

/// A username is absent from the store exactly when no record carries it.
pub proof fn lemma_find_username_none(users: Seq<User>, name: Seq<char>)
    ensures
        spec_find_by_username(users, name) is None <==> (forall|i: int|
            0 <= i < users.len() ==> #[trigger] users[i].username@ != name),
    decreases users.len(),
{
    if users.len() > 0 && users[0].username@ != name {
        lemma_find_username_none(users.drop_first(), name);
        if spec_find_by_username(users, name) is None {
            assert forall|i: int| 0 <= i < users.len() implies #[trigger] users[i].username@
                != name by {
                if i > 0 {
                    assert(users.drop_first()[i - 1] == users[i]);
                }
            }
        } else {
            let j = choose|j: int|
                0 <= j < users.drop_first().len() && #[trigger] users.drop_first()[j].username@
                    == name;
            assert(users[j + 1].username@ == name);
        }
    }
}


/// Pushing a record whose username is new makes it the one the lookup
/// finds.
pub proof fn lemma_find_username_push(users: Seq<User>, u: User)
    requires
        spec_find_by_username(users, u.username@) is None,
    ensures
        spec_find_by_username(users.push(u), u.username@) == Some(u),
    decreases users.len(),
{
    if users.len() == 0 {
        assert(users.push(u)[0] == u);
    } else {
        assert(users.push(u)[0] == users[0]);
        assert(users.push(u).drop_first() =~= users.drop_first().push(u));
        lemma_find_username_push(users.drop_first(), u);
    }
}

} // verus!
