//! The session store: rows keyed by an opaque token, resolved with lazy
//! expiry. The store's abstract state is a map from token to the stored
//! identity snapshot and its expiry instant.

use vstd::prelude::*;

use crate::models::SessionUser;
use crate::token::mint_token;

verus! {

/// How long a session lives from its last write, in seconds (24 hours).
pub const SESSION_TTL_SECONDS: u64 = 86400;

/// One stored session row.
#[derive(Debug)]
pub struct SessionRow {
    pub token: String,
    pub user: SessionUser,
    pub expires_at: u64,
}

/// No token occurs on two rows.
pub open spec fn unique_tokens(rows: Seq<SessionRow>) -> bool {
    forall|i: int, j: int|
        0 <= i < j < rows.len() ==> #[trigger] rows[i].token@ != #[trigger] rows[j].token@
}

/// The rows folded into a token-keyed map; a later row with the same token
/// wins, matching replace-on-write.
pub open spec fn rows_map(rows: Seq<SessionRow>) -> Map<Seq<char>, (SessionUser, u64)>
    decreases rows.len(),
{
    if rows.len() == 0 {
        Map::empty()
    } else {
        rows_map(rows.drop_last()).insert(
            rows.last().token@,
            (rows.last().user, rows.last().expires_at),
        )
    }
}

/// What `token` resolves to at time `now`: the stored snapshot while the
/// expiry lies strictly in the future, nothing otherwise. An expired row is
/// indistinguishable from an absent one.
pub open spec fn map_resolve(
    m: Map<Seq<char>, (SessionUser, u64)>,
    token: Seq<char>,
    now: u64,
) -> Option<SessionUser> {
    if m.contains_key(token) && now < m[token].1 {
        Some(m[token].0)
    } else {
        None
    }
}

/// Persistence for sessions: get, replace-on-write and delete by token, with
/// expiry decided at resolution time.
#[derive(Debug)]
pub struct SessionStore {
    rows: Vec<SessionRow>,
}

impl View for SessionStore {
    type V = Map<Seq<char>, (SessionUser, u64)>;

    closed spec fn view(&self) -> Map<Seq<char>, (SessionUser, u64)> {
        rows_map(self.rows@)
    }
}

impl SessionStore {
    /// Store invariant: one row per token.
    pub closed spec fn wf(self) -> bool {
        unique_tokens(self.rows@)
    }

    /// An empty store.
    pub fn new() -> (r: Self)
        ensures
            r.wf(),
            r@ == Map::<Seq<char>, (SessionUser, u64)>::empty(),
    {
        SessionStore { rows: Vec::new() }
    }

    /// The index of the row holding `token`, if any.
    fn find_index(&self, token: &str) -> (r: Option<usize>)
        ensures
            match r {
                Some(i) => i < self.rows@.len() && self.rows@[i as int].token@ == token@,
                None => forall|i: int|
                    0 <= i < self.rows@.len() ==> #[trigger] self.rows@[i].token@ != token@,
            },
    {
        let n = self.rows.len();
        let mut i: usize = 0;
        while i < n
            invariant
                i <= n,
                n == self.rows@.len(),
                forall|j: int| 0 <= j < i ==> #[trigger] self.rows@[j].token@ != token@,
            decreases n - i,
        {
            if crate::strutil::str_eq(self.rows[i].token.as_str(), token) {
                return Some(i);
            }
            i = i + 1;
        }
        None
    }

    /// Resolves a token at time `now`. A token expires the moment `now`
    /// reaches `expires_at`: such a session resolves to nothing, exactly as
    /// an unknown token does.
    pub fn resolve(&self, token: &str, now: u64) -> (r: Option<SessionUser>)
        requires
            self.wf(),
        ensures
            r == map_resolve(self@, token@, now),
            self@.contains_key(token@) && self@[token@].1 <= now ==> r is None,
    {
        match self.find_index(token) {
            Some(i) => {
                proof {
                    lemma_rows_map_index(self.rows@, i as int);
                }
                if now < self.rows[i].expires_at {
                    Some(self.rows[i].user.clone())
                } else {
                    None
                }
            },
            None => {
                proof {
                    lemma_rows_map_contains(self.rows@, token@);
                }
                None
            },
        }
    }

    /// Deletes the row holding `token`; deleting an unknown token changes
    /// nothing and is not an error.
    pub fn delete(&mut self, token: &str)
        requires
            old(self).wf(),
        ensures
            final(self).wf(),
            final(self)@ == old(self)@.remove(token@),
    {
        let ghost s = self.rows@;
        match self.find_index(token) {
            Some(i) => {
                proof {
                    lemma_rows_map_remove(s, i as int);
                    assert(unique_tokens(s.remove(i as int))) by {
                        assert forall|p: int, q: int|
                            0 <= p < q < s.remove(i as int).len() implies #[trigger] s.remove(
                            i as int,
                        )[p].token@ != #[trigger] s.remove(i as int)[q].token@ by {
                            let p0 = if p < i { p } else { p + 1 };
                            let q0 = if q < i { q } else { q + 1 };
                            assert(s.remove(i as int)[p] == s[p0]);
                            assert(s.remove(i as int)[q] == s[q0]);
                        }
                    }
                }
                self.rows.remove(i);
            },
            None => {
                proof {
                    lemma_rows_map_contains(s, token@);
                    assert(old(self)@.remove(token@) =~= old(self)@);
                }
            },
        }
    }

    /// Writes `token -> (user, expires_at)`, replacing any row with the same
    /// token in place.
    fn upsert(&mut self, token: String, user: SessionUser, expires_at: u64)
        requires
            old(self).wf(),
        ensures
            final(self).wf(),
            final(self)@ == old(self)@.insert(token@, (user, expires_at)),
    {
        let ghost s = self.rows@;
        let found = self.find_index(token.as_str());
        let row = SessionRow { token, user, expires_at };
        match found {
            Some(i) => {
                proof {
                    lemma_rows_map_update(s, i as int, row);
                    assert(unique_tokens(s.update(i as int, row)));
                }
                self.rows[i] = row;
            },
            None => {
                self.rows.push(row);
                proof {
                    assert(self.rows@.drop_last() =~= s);
                    assert(unique_tokens(self.rows@));
                }
            },
        }
    }

    /// Renews or creates a session. A valid existing token is renewed in
    /// place — the returned token equals the given one and is not marked
    /// fresh — while an absent, unknown or expired token leads to a freshly
    /// minted token. Either way the record is written under the returned
    /// token with a full lifetime from `now`.
    pub fn create_or_renew(&mut self, existing_token: Option<&String>, user: SessionUser, now: u64) -> (r: (
        String,
        bool,
    ))
        requires
            old(self).wf(),
            now + SESSION_TTL_SECONDS <= u64::MAX,
        ensures
            final(self).wf(),
            final(self)@ == old(self)@.insert(
                r.0@,
                (user, (now + SESSION_TTL_SECONDS) as u64),
            ),
            match existing_token {
                Some(t) => if map_resolve(old(self)@, t@, now) is Some {
                    r.0@ == t@ && r.1 == false
                } else {
                    r.1 == true
                },
                None => r.1 == true,
            },
    {
        let expires_at = now + SESSION_TTL_SECONDS;
        if let Some(t) = existing_token {
            if self.resolve(t.as_str(), now).is_some() {
                let returned = t.clone();
                self.upsert(t.clone(), user, expires_at);
                return (returned, false);
            }
        }
        let fresh = mint_token();
        let returned = fresh.clone();
        self.upsert(fresh, user, expires_at);
        (returned, true)
    }
}

/// Deleting a token revokes it: the removed key resolves to nothing, at any
/// time.
pub proof fn lemma_remove_revokes(
    m: Map<Seq<char>, (SessionUser, u64)>,
    token: Seq<char>,
    now: u64,
)
    ensures
        map_resolve(m.remove(token), token, now) is None,
{
}

/// A token is a key of the folded map exactly when some row holds it.
proof fn lemma_rows_map_contains(rows: Seq<SessionRow>, t: Seq<char>)
    ensures
        rows_map(rows).contains_key(t) <==> (exists|i: int|
            0 <= i < rows.len() && #[trigger] rows[i].token@ == t),
    decreases rows.len(),
{
    if rows.len() > 0 {
        lemma_rows_map_contains(rows.drop_last(), t);
        if rows.last().token@ == t {
            assert(rows[rows.len() - 1].token@ == t);
        } else {
            if rows_map(rows).contains_key(t) {
                let i = choose|i: int|
                    0 <= i < rows.drop_last().len() && #[trigger] rows.drop_last()[i].token@ == t;
                assert(rows[i].token@ == t);
            }
            if exists|i: int| 0 <= i < rows.len() && #[trigger] rows[i].token@ == t {
                let i = choose|i: int| 0 <= i < rows.len() && #[trigger] rows[i].token@ == t;
                assert(i < rows.len() - 1);
                assert(rows.drop_last()[i].token@ == t);
            }
        }
    }
}

/// With unique tokens, the folded map holds each row under its token.
proof fn lemma_rows_map_index(rows: Seq<SessionRow>, i: int)
    requires
        unique_tokens(rows),
        0 <= i < rows.len(),
    ensures
        rows_map(rows).contains_key(rows[i].token@),
        rows_map(rows)[rows[i].token@] == (rows[i].user, rows[i].expires_at),
    decreases rows.len(),
{
    if i < rows.len() - 1 {
        assert(unique_tokens(rows.drop_last()));
        lemma_rows_map_index(rows.drop_last(), i);
        assert(rows.drop_last()[i] == rows[i]);
        assert(rows[i].token@ != rows.last().token@);
    }
}

/// With unique tokens, replacing row `i` by a row with the same token folds
/// to a map insert at that token.
proof fn lemma_rows_map_update(rows: Seq<SessionRow>, i: int, row: SessionRow)
    requires
        unique_tokens(rows),
        0 <= i < rows.len(),
        row.token@ == rows[i].token@,
    ensures
        rows_map(rows.update(i, row)) =~= rows_map(rows).insert(
            row.token@,
            (row.user, row.expires_at),
        ),
    decreases rows.len(),
{
    if i == rows.len() - 1 {
        assert(rows.update(i, row).drop_last() =~= rows.drop_last());
        assert(rows.update(i, row).last() == row);
    } else {
        assert(unique_tokens(rows.drop_last()));
        lemma_rows_map_update(rows.drop_last(), i, row);
        assert(rows.update(i, row).drop_last() =~= rows.drop_last().update(i, row));
        assert(rows.update(i, row).last() == rows.last());
        assert(rows[i].token@ != rows.last().token@);
    }
}

/// With unique tokens, removing row `i` folds to a map remove at its token.
proof fn lemma_rows_map_remove(rows: Seq<SessionRow>, i: int)
    requires
        unique_tokens(rows),
        0 <= i < rows.len(),
    ensures
        rows_map(rows.remove(i)) =~= rows_map(rows).remove(rows[i].token@),
    decreases rows.len(),
{
    if i == rows.len() - 1 {
        assert(rows.remove(i) =~= rows.drop_last());
        lemma_rows_map_contains(rows.drop_last(), rows[i].token@);
        assert forall|j: int| 0 <= j < rows.drop_last().len() implies #[trigger] rows.drop_last()[j].token@
            != rows[i].token@ by {
            assert(rows.drop_last()[j] == rows[j]);
        }
        assert(!rows_map(rows.drop_last()).contains_key(rows[i].token@));
        assert(rows_map(rows.drop_last()).remove(rows[i].token@) =~= rows_map(rows.drop_last()));
    } else {
        assert(unique_tokens(rows.drop_last()));
        lemma_rows_map_remove(rows.drop_last(), i);
        assert(rows.remove(i).drop_last() =~= rows.drop_last().remove(i));
        assert(rows.remove(i).last() == rows.last());
        assert(rows[i].token@ != rows.last().token@);
    }
}

} // verus!
