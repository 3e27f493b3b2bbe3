//! The post store: append-ordered posts with store-generated ids.

use vstd::prelude::*;

use crate::errors::ServerError;
use crate::models::{NewPost, Post, UpdatePostData};

verus! {

/// The first post with id `id`.
pub open spec fn spec_find_post(posts: Seq<Post>, id: i64) -> Option<Post>
    decreases posts.len(),
{
    if posts.len() == 0 {
        None
    } else if posts[0].id == id {
        Some(posts[0])
    } else {
        spec_find_post(posts.drop_first(), id)
    }
}

/// The published posts, in stored order.
pub open spec fn spec_published_only(posts: Seq<Post>) -> Seq<Post>
    decreases posts.len(),
{
    if posts.len() == 0 {
        Seq::empty()
    } else if posts.last().published {
        spec_published_only(posts.drop_last()).push(posts.last())
    } else {
        spec_published_only(posts.drop_last())
    }
}

/// The listing: the posts a caller may see — all of them, or the published
/// ones — newest first.
pub open spec fn spec_listing(posts: Seq<Post>, only_published: bool) -> Seq<Post> {
    if only_published {
        spec_published_only(posts).reverse()
    } else {
        posts.reverse()
    }
}

/// The post with id `data.id` rewritten from `data` — title, content and
/// published flag replaced, `updated_at` set to `now`, `created_at` kept.
pub open spec fn spec_rewrite(posts: Seq<Post>, data: UpdatePostData, now: u64) -> Seq<Post> {
    Seq::new(
        posts.len(),
        |k: int|
            if posts[k].id == data.id {
                (Post {
                    id: data.id,
                    title: data.title,
                    content: data.content,
                    created_at: posts[k].created_at,
                    updated_at: now,
                    published: data.published,
                })
            } else {
                posts[k]
            },
    )
}

/// The posts without any carrying `id`.
pub open spec fn spec_without(posts: Seq<Post>, id: i64) -> Seq<Post>
    decreases posts.len(),
{
    if posts.len() == 0 {
        Seq::empty()
    } else if posts.last().id == id {
        spec_without(posts.drop_last(), id)
    } else {
        spec_without(posts.drop_last(), id).push(posts.last())
    }
}

/// Persistence for posts. Ids come from a counter that only grows, so the
/// stored sequence carries strictly ascending ids: creation order and id
/// order agree, and no id is ever reused.
#[derive(Debug)]
pub struct PostStore {
    posts: Vec<Post>,
    next_id: i64,
}

impl PostStore {
    /// The stored posts, in creation order.
    pub closed spec fn posts_seq(self) -> Seq<Post> {
        self.posts@
    }

    /// The id the next created post will receive.
    pub closed spec fn spec_next_id(self) -> i64 {
        self.next_id
    }

    /// Store invariant: positive, strictly ascending ids below the counter.
    pub open spec fn wf(self) -> bool {
        &&& 1 <= self.spec_next_id()
        &&& forall|i: int|
            0 <= i < self.posts_seq().len() ==> 1 <= #[trigger] self.posts_seq()[i].id
                < self.spec_next_id()
        &&& forall|i: int, j: int|
            0 <= i < j < self.posts_seq().len() ==> #[trigger] self.posts_seq()[i].id
                < #[trigger] self.posts_seq()[j].id
    }

    /// An empty store.
    pub fn new() -> (r: Self)
        ensures
            r.wf(),
            r.posts_seq() == Seq::<Post>::empty(),
            r.spec_next_id() == 1,
    {
        PostStore { posts: Vec::new(), next_id: 1 }
    }

    /// Creates a post with a fresh id and both timestamps set to `now`,
    /// returning the stored record. Fails with `StorageError` exactly when
    /// the id space is exhausted.
    pub fn insert(&mut self, new_post: NewPost, now: u64) -> (r: Result<Post, ServerError>)
        requires
            old(self).wf(),
        ensures
            final(self).wf(),
            match r {
                Ok(p) => {
                    &&& old(self).spec_next_id() < i64::MAX
                    &&& p == (Post {
                        id: old(self).spec_next_id(),
                        title: new_post.title,
                        content: new_post.content,
                        created_at: now,
                        updated_at: now,
                        published: new_post.published,
                    })
                    &&& final(self).posts_seq() == old(self).posts_seq().push(p)
                    &&& final(self).spec_next_id() == old(self).spec_next_id() + 1
                },
                Err(e) => {
                    &&& *final(self) == *old(self)
                    &&& e == ServerError::StorageError
                    &&& old(self).spec_next_id() == i64::MAX
                },
            },
            r is Ok <==> old(self).spec_next_id() < i64::MAX,
    {
        if self.next_id == i64::MAX {
            return Err(ServerError::StorageError);
        }
        let id = self.next_id;
        let post = Post {
            id,
            title: new_post.title,
            content: new_post.content,
            created_at: now,
            updated_at: now,
            published: new_post.published,
        };
        let stored = post.clone();
        self.posts.push(stored);
        self.next_id = id + 1;
        proof {
            let t = self.posts@;
            assert forall|p: int, q: int| 0 <= p < q < t.len() implies #[trigger] t[p].id
                < #[trigger] t[q].id by {
                if q < t.len() - 1 {
                    assert(old(self).posts_seq()[p].id < old(self).posts_seq()[q].id);
                } else {
                    assert(1 <= old(self).posts_seq()[p].id < old(self).spec_next_id());
                }
            }
            assert forall|p: int| 0 <= p < t.len() implies 1 <= #[trigger] t[p].id
                < self.next_id by {
                if p < t.len() - 1 {
                    assert(1 <= old(self).posts_seq()[p].id < old(self).spec_next_id());
                }
            }
        }
        Ok(post)
    }

    /// Looks a post up by id.
    pub fn get(&self, id: i64) -> (r: Option<&Post>)
        ensures
            match r {
                Some(p) => spec_find_post(self.posts_seq(), id) == Some(*p),
                None => spec_find_post(self.posts_seq(), id) is None,
            },
    {
        let ghost s = self.posts@;
        proof {
            assert(s.skip(0) =~= s);
        }
        let n = self.posts.len();
        let mut i: usize = 0;
        while i < n
            invariant
                i <= n,
                n == s.len(),
                s == self.posts@,
                spec_find_post(s, id) == spec_find_post(s.skip(i as int), id),
            decreases n - i,
        {
            if self.posts[i].id == id {
                proof {
                    assert(s.skip(i as int)[0] == s[i as int]);
                }
                return Some(&self.posts[i]);
            }
            proof {
                assert(s.skip(i as int).drop_first() =~= s.skip(i as int + 1));
            }
            i = i + 1;
        }
        proof {
            assert(s.skip(n as int) =~= Seq::<Post>::empty());
        }
        None
    }

    /// Lists posts newest first, restricted to published ones on demand.
    pub fn list(&self, only_published: bool) -> (r: Vec<Post>)
        ensures
            r@ == spec_listing(self.posts_seq(), only_published),
    {
        let ghost s = self.posts@;
        let n = self.posts.len();
        let mut kept: Vec<Post> = Vec::new();
        let mut i: usize = 0;
        proof {
            assert(s.take(0) =~= Seq::<Post>::empty());
        }
        while i < n
            invariant
                i <= n,
                n == s.len(),
                s == self.posts@,
                kept@ == (if only_published {
                    spec_published_only(s.take(i as int))
                } else {
                    s.take(i as int)
                }),
            decreases n - i,
        {
            proof {
                assert(s.take(i as int + 1).drop_last() =~= s.take(i as int));
                assert(s.take(i as int + 1).last() == s[i as int]);
            }
            if !only_published || self.posts[i].published {
                kept.push(self.posts[i].clone());
            }
            i = i + 1;
        }
        proof {
            assert(s.take(n as int) =~= s);
        }
        let m = kept.len();
        let mut out: Vec<Post> = Vec::new();
        let mut k: usize = 0;
        while k < m
            invariant
                k <= m,
                m == kept@.len(),
                out@.len() == k,
                forall|j: int| 0 <= j < k ==> out@[j] == kept@[m - 1 - j],
            decreases m - k,
        {
            out.push(kept[m - 1 - k].clone());
            k = k + 1;
        }
        proof {
            assert(out@ =~= kept@.reverse());
        }
        out
    }

    /// Rewrites the post with id `data.id` from `data`, stamping `now` as
    /// its update time and keeping its creation time; returns the stored
    /// result, or nothing when no post carries that id.
    pub fn update(&mut self, data: UpdatePostData, now: u64) -> (r: Option<Post>)
        requires
            old(self).wf(),
        ensures
            final(self).wf(),
            final(self).posts_seq() == spec_rewrite(old(self).posts_seq(), data, now),
            final(self).spec_next_id() == old(self).spec_next_id(),
            match r {
                Some(p) => spec_find_post(old(self).posts_seq(), data.id) matches Some(orig) && p
                    == (Post {
                    id: data.id,
                    title: data.title,
                    content: data.content,
                    created_at: orig.created_at,
                    updated_at: now,
                    published: data.published,
                }),
                None => spec_find_post(old(self).posts_seq(), data.id) is None,
            },
            r is Some <==> spec_find_post(old(self).posts_seq(), data.id) is Some,
            r is None ==> *final(self) == *old(self),
    {
        let ghost s = self.posts@;
        let ghost nid = self.next_id;
        proof {
            assert(s.skip(0) =~= s);
        }
        let n = self.posts.len();
        let mut i: usize = 0;
        while i < n
            invariant
                i <= n,
                n == s.len(),
                s == self.posts@,
                self.next_id == nid,
                *self == *old(self),
                old(self).wf(),
                s == old(self).posts_seq(),
                nid == old(self).spec_next_id(),
                spec_find_post(s, data.id) == spec_find_post(s.skip(i as int), data.id),
                forall|j: int| 0 <= j < i ==> s[j].id != data.id,
            decreases n - i,
        {
            if self.posts[i].id == data.id {
                proof {
                    assert(s.skip(i as int)[0] == s[i as int]);
                }
                let updated = Post {
                    id: data.id,
                    title: data.title,
                    content: data.content,
                    created_at: self.posts[i].created_at,
                    updated_at: now,
                    published: data.published,
                };
                let result = updated.clone();
                self.posts[i] = updated;
                proof {
                    assert forall|k: int| 0 <= k < s.len() implies self.posts@[k] == spec_rewrite(
                        s,
                        data,
                        now,
                    )[k] by {
                        if k != i {
                            if k < i {
                                assert(old(self).posts_seq()[k].id < old(
                                    self,
                                ).posts_seq()[i as int].id);
                            } else {
                                assert(old(self).posts_seq()[i as int].id < old(
                                    self,
                                ).posts_seq()[k].id);
                            }
                        }
                    }
                    assert(self.posts@ =~= spec_rewrite(s, data, now));
                }
                return Some(result);
            }
            proof {
                assert(s.skip(i as int).drop_first() =~= s.skip(i as int + 1));
            }
            i = i + 1;
        }
        proof {
            assert(s.skip(n as int) =~= Seq::<Post>::empty());
            assert(self.posts@ =~= spec_rewrite(s, data, now));
        }
        None
    }

    /// Deletes the post with id `id`; reports whether one was there.
    pub fn delete(&mut self, id: i64) -> (r: bool)
        requires
            old(self).wf(),
        ensures
            final(self).wf(),
            final(self).posts_seq() == spec_without(old(self).posts_seq(), id),
            final(self).spec_next_id() == old(self).spec_next_id(),
            r <==> spec_find_post(old(self).posts_seq(), id) is Some,
            !r ==> *final(self) == *old(self),
    {
        let ghost s = self.posts@;
        let ghost nid = self.next_id;
        proof {
            assert(s.skip(0) =~= s);
        }
        let n = self.posts.len();
        let mut i: usize = 0;
        while i < n
            invariant
                i <= n,
                n == s.len(),
                s == self.posts@,
                self.next_id == nid,
                *self == *old(self),
                old(self).wf(),
                s == old(self).posts_seq(),
                nid == old(self).spec_next_id(),
                spec_find_post(s, id) == spec_find_post(s.skip(i as int), id),
                forall|j: int| 0 <= j < i ==> s[j].id != id,
            decreases n - i,
        {
            if self.posts[i].id == id {
                proof {
                    assert(s.skip(i as int)[0] == s[i as int]);
                }
                self.posts.remove(i);
                proof {
                    lemma_remove_matching_is_filter(s, i as int, id);
                    assert forall|p: int, q: int|
                        0 <= p < q < self.posts@.len() implies #[trigger] self.posts@[p].id
                        < #[trigger] self.posts@[q].id by {
                        let p0 = if p < i { p } else { p + 1 };
                        let q0 = if q < i { q } else { q + 1 };
                        assert(self.posts@[p] == s[p0]);
                        assert(self.posts@[q] == s[q0]);
                        assert(old(self).posts_seq()[p0].id < old(self).posts_seq()[q0].id);
                    }
                }
                return true;
            }
            proof {
                assert(s.skip(i as int).drop_first() =~= s.skip(i as int + 1));
            }
            i = i + 1;
        }
        proof {
            assert(s.skip(n as int) =~= Seq::<Post>::empty());
            lemma_without_no_match(s, id);
        }
        false
    }
}

/// Removing the only post carrying `id` is the same as filtering `id` out.
proof fn lemma_remove_matching_is_filter(posts: Seq<Post>, i: int, id: i64)
    requires
        0 <= i < posts.len(),
        posts[i].id == id,
        forall|p: int, q: int|
            0 <= p < q < posts.len() ==> #[trigger] posts[p].id < #[trigger] posts[q].id,
    ensures
        posts.remove(i) =~= spec_without(posts, id),
    decreases posts.len(),
{
    if i == posts.len() - 1 {
        assert(posts.remove(i) =~= posts.drop_last());
        assert forall|j: int| 0 <= j < posts.drop_last().len() implies #[trigger] posts.drop_last()[j].id
            != id by {
            assert(posts.drop_last()[j] == posts[j]);
            assert(posts[j].id < posts[i].id);
        }
        lemma_without_no_match(posts.drop_last(), id);
    } else {
        lemma_remove_matching_is_filter(posts.drop_last(), i, id);
        assert(posts.remove(i).drop_last() =~= posts.drop_last().remove(i));
        assert(posts.remove(i).last() == posts.last());
        assert(posts[i].id < posts.last().id);
        assert(posts.remove(i) =~= posts.remove(i).drop_last().push(posts.remove(i).last()));
    }
}

/// Filtering an id out of posts that never carry it changes nothing.
proof fn lemma_without_no_match(posts: Seq<Post>, id: i64)
    requires
        forall|j: int| 0 <= j < posts.len() ==> #[trigger] posts[j].id != id,
    ensures
        spec_without(posts, id) == posts,
    decreases posts.len(),
{
    if posts.len() > 0 {
        assert forall|j: int| 0 <= j < posts.drop_last().len() implies #[trigger] posts.drop_last()[j].id
            != id by {
            assert(posts.drop_last()[j] == posts[j]);
        }
        lemma_without_no_match(posts.drop_last(), id);
        assert(posts.last().id != id);
        assert(posts.drop_last().push(posts.last()) =~= posts);
    }
}

} // verus!
