//! Per-content like counters with idempotent likes.
//!
//! Each piece of content carries the set of principals that like it and a
//! denormalized counter; the counter always equals the size of the set.
//! Liking twice is a no-op, unliking without a prior like is an error.

use vstd::prelude::*;

use crate::errors::Error;
use crate::store::Table;

verus! {

/// A notification a successful mutating operation leaves behind.
#[derive(Clone, Copy, Debug, PartialEq, Eq, Structural)]
pub enum LikeEvent {
    Liked { user: u64, content_id: u32 },
    Unliked { user: u64, content_id: u32 },
}

/// The abstract state of one content item: who likes it, and the stored
/// counter.
#[verifier::ext_equal]
pub struct LikeSummary {
    pub likers: Set<u64>,
    pub count: u32,
}

/// The abstract state of the likes contract.
#[verifier::ext_equal]
pub struct ContentLikesView {
    pub likes: Map<u64, LikeSummary>,
    pub events: Seq<LikeEvent>,
}

/// Whether `user` likes `content_id` under `m`.
pub open spec fn liked(m: Map<u64, LikeSummary>, user: u64, content_id: u32) -> bool {
    m.contains_key(content_id as u64) && m[content_id as u64].likers.contains(user)
}

/// The stored like counter of `content_id` under `m`; zero if never liked.
pub open spec fn count_of(m: Map<u64, LikeSummary>, content_id: u32) -> u32 {
    if m.contains_key(content_id as u64) {
        m[content_id as u64].count
    } else {
        0
    }
}

/// The stored counter of every content item equals the number of its likers.
pub open spec fn counts_consistent(m: Map<u64, LikeSummary>) -> bool {
    forall|k: u64| m.contains_key(k) ==> (#[trigger] m[k]).likers.finite() && m[k].count as int
        == m[k].likers.len()
}

/// What one `like` call does for the given inputs.
pub open spec fn like_outcome(s: ContentLikesView, auth: u64, user: u64, content_id: u32) -> (
    ContentLikesView,
    Result<(), Error>,
) {
    if auth != user {
        (s, Err(Error::Unauthorized))
    } else if liked(s.likes, user, content_id) {
        (s, Ok(()))
    } else if count_of(s.likes, content_id) == u32::MAX {
        (s, Err(Error::Overflow))
    } else {
        let old_likers = if s.likes.contains_key(content_id as u64) {
            s.likes[content_id as u64].likers
        } else {
            Set::empty()
        };
        (
            ContentLikesView {
                likes: s.likes.insert(
                    content_id as u64,
                    LikeSummary {
                        likers: old_likers.insert(user),
                        count: (count_of(s.likes, content_id) + 1) as u32,
                    },
                ),
                events: s.events.push(LikeEvent::Liked { user, content_id }),
            },
            Ok(()),
        )
    }
}

/// What one `unlike` call does for the given inputs.
pub open spec fn unlike_outcome(s: ContentLikesView, auth: u64, user: u64, content_id: u32) -> (
    ContentLikesView,
    Result<(), Error>,
) {
    if auth != user {
        (s, Err(Error::Unauthorized))
    } else if !liked(s.likes, user, content_id) {
        (s, Err(Error::NotLiked))
    } else {
        let summary = s.likes[content_id as u64];
        let new_count: u32 = if summary.count > 0 {
            (summary.count - 1) as u32
        } else {
            0
        };
        (
            ContentLikesView {
                likes: s.likes.insert(
                    content_id as u64,
                    LikeSummary { likers: summary.likers.remove(user), count: new_count },
                ),
                events: s.events.push(LikeEvent::Unliked { user, content_id }),
            },
            Ok(()),
        )
    }
}

/// One content item's storage row: the likers keyed by principal, plus the
/// denormalized counter.
struct LikeRecord {
    likers: Table<bool>,
    count: u32,
}

impl LikeRecord {
    spec fn summary(&self) -> LikeSummary {
        LikeSummary { likers: self.likers@.dom(), count: self.count }
    }

    spec fn wf(&self) -> bool {
        self.likers.wf() && self.likers@.dom().finite() && self.count as int
            == self.likers@.dom().len()
    }
}

/// The likes contract: one row per content item that was ever liked.
pub struct ContentLikes {
    likes: Table<LikeRecord>,
    events: Vec<LikeEvent>,
}

impl View for ContentLikes {
    type V = ContentLikesView;

    closed spec fn view(&self) -> ContentLikesView {
        ContentLikesView {
            likes: self.likes@.map_values(|r: LikeRecord| r.summary()),
            events: self.events@,
        }
    }
}

impl ContentLikes {
    /// Sound storage and consistent counters in every row.
    pub closed spec fn wf(&self) -> bool {
        self.likes.wf() && (forall|k: u64|
            self.likes@.contains_key(k) ==> (#[trigger] self.likes@[k]).wf())
    }

    /// A fresh contract: nothing is liked.
    pub fn new() -> (c: Self)
        ensures
            c.wf(),
            c@ == (ContentLikesView { likes: Map::empty(), events: Seq::empty() }),
            counts_consistent(c@.likes),
    {
        let c = ContentLikes { likes: Table::new(), events: Vec::new() };
        proof {
            assert(c@.likes =~= Map::<u64, LikeSummary>::empty());
            assert(c@.events =~= Seq::<LikeEvent>::empty());
            assert(c@ =~= (ContentLikesView { likes: Map::empty(), events: Seq::empty() }));
        }
        c
    }

    /// `user` likes `content_id`. The user must have approved the call;
    /// liking content the user already likes changes nothing.
    pub fn like(&mut self, auth: u64, user: u64, content_id: u32) -> (r: Result<(), Error>)
        requires
            old(self).wf(),
        ensures
            final(self).wf(),
            (final(self)@, r) == like_outcome(old(self)@, auth, user, content_id),
            counts_consistent(old(self)@.likes) ==> counts_consistent(final(self)@.likes),
    {
        proof {
            self.lemma_summary_facts(content_id as u64);
        }
        if auth != user {
            return Err(Error::Unauthorized);
        }
        let key = content_id as u64;
        match self.likes.take(key) {
            Some(mut record) => {
                if record.likers.contains_key(user) {
                    self.likes.insert(key, record);
                    proof {
                        assert(self.likes@ =~= old(self).likes@);
                        self.lemma_view_unchanged(old(self));
                    }
                    return Ok(());
                }
                if record.count == u32::MAX {
                    self.likes.insert(key, record);
                    proof {
                        assert(self.likes@ =~= old(self).likes@);
                        self.lemma_view_unchanged(old(self));
                    }
                    return Err(Error::Overflow);
                }
                record.likers.insert(user, true);
                record.count = record.count + 1;
                self.likes.insert(key, record);
                self.events.push(LikeEvent::Liked { user, content_id });
                proof {
                    assert(self.likes@ =~= old(self).likes@.insert(key, self.likes@[key]));
                    self.lemma_view_insert(old(self), key);
                }
                Ok(())
            },
            None => {
                let mut record = LikeRecord { likers: Table::new(), count: 0 };
                record.likers.insert(user, true);
                record.count = 1;
                self.likes.insert(key, record);
                self.events.push(LikeEvent::Liked { user, content_id });
                proof {
                    assert(Set::<u64>::empty().insert(user) =~= Map::<u64, bool>::empty().insert(
                        user,
                        true,
                    ).dom());
                    self.lemma_view_insert(old(self), key);
                }
                Ok(())
            },
        }
    }

    /// `user` withdraws a like from `content_id`. The user must have
    /// approved the call and must currently like the content.
    pub fn unlike(&mut self, auth: u64, user: u64, content_id: u32) -> (r: Result<(), Error>)
        requires
            old(self).wf(),
        ensures
            final(self).wf(),
            (final(self)@, r) == unlike_outcome(old(self)@, auth, user, content_id),
            counts_consistent(old(self)@.likes) ==> counts_consistent(final(self)@.likes),
    {
        proof {
            self.lemma_summary_facts(content_id as u64);
        }
        if auth != user {
            return Err(Error::Unauthorized);
        }
        let key = content_id as u64;
        match self.likes.take(key) {
            Some(mut record) => {
                if !record.likers.contains_key(user) {
                    self.likes.insert(key, record);
                    proof {
                        assert(self.likes@ =~= old(self).likes@);
                        self.lemma_view_unchanged(old(self));
                    }
                    return Err(Error::NotLiked);
                }
                record.likers.remove(user);
                if record.count > 0 {
                    record.count = record.count - 1;
                }
                self.likes.insert(key, record);
                self.events.push(LikeEvent::Unliked { user, content_id });
                proof {
                    assert(self.likes@ =~= old(self).likes@.insert(key, self.likes@[key]));
                    self.lemma_view_insert(old(self), key);
                }
                Ok(())
            },
            None => Err(Error::NotLiked),
        }
    }

    /// The like counter of `content_id`; zero if it was never liked.
    pub fn like_count(&self, content_id: u32) -> (r: u32)
        requires
            self.wf(),
        ensures
            r == count_of(self@.likes, content_id),
    {
        proof {
            self.lemma_summary_facts(content_id as u64);
        }
        match self.likes.get(content_id as u64) {
            Some(record) => record.count,
            None => 0,
        }
    }

    /// Whether `user` likes `content_id`.
    pub fn has_liked(&self, user: u64, content_id: u32) -> (r: bool)
        requires
            self.wf(),
        ensures
            r == liked(self@.likes, user, content_id),
    {
        proof {
            self.lemma_summary_facts(content_id as u64);
        }
        match self.likes.get(content_id as u64) {
            Some(record) => record.likers.contains_key(user),
            None => false,
        }
    }

    /// The events the contract has emitted, oldest first.
    pub fn events(&self) -> (r: &Vec<LikeEvent>)
        ensures
            r@ == self@.events,
    {
        &self.events
    }

    /// Relate one raw row to its abstract summary.
    proof fn lemma_summary_facts(&self, k: u64)
        ensures
            self@.likes.contains_key(k) == self.likes@.contains_key(k),
            self.likes@.contains_key(k) ==> self@.likes[k] == self.likes@[k].summary(),
    {
    }

    /// Rows unchanged means the abstract map is unchanged.
    proof fn lemma_view_unchanged(&self, prior: &Self)
        requires
            self.likes@ == prior.likes@,
            self.events@ == prior.events@,
        ensures
            self@ == prior@,
    {
        assert(self@.likes =~= prior@.likes);
        assert(self@ =~= prior@);
    }

    /// Updating one row updates exactly that key of the abstract map.
    proof fn lemma_view_insert(&self, prior: &Self, k: u64)
        requires
            self.likes@.contains_key(k),
            self.likes@ == prior.likes@.insert(k, self.likes@[k]),
        ensures
            self@.likes =~= prior@.likes.insert(k, self.likes@[k].summary()),
    {
    }
}

/// Liking is idempotent: a second `like` by the same user leaves the state —
/// likers, counter and event log alike — exactly where the first left it.
pub proof fn lemma_like_idempotent(s: ContentLikesView, auth: u64, user: u64, content_id: u32)
    ensures
        ({
            let (s1, r1) = like_outcome(s, auth, user, content_id);
            let (s2, r2) = like_outcome(s1, auth, user, content_id);
            s2 == s1 && (r1 is Ok ==> r2 is Ok)
        }),
{
}

/// A like touches exactly its own content item and its own user: every other
/// (user, content) pair and every other counter reads as before.
pub proof fn lemma_like_isolated(
    s: ContentLikesView,
    auth: u64,
    user: u64,
    content_id: u32,
    other_user: u64,
    other_content: u32,
)
    ensures
        ({
            let (s1, r1) = like_outcome(s, auth, user, content_id);
            &&& ((other_user, other_content) != (user, content_id) ==> liked(
                s1.likes,
                other_user,
                other_content,
            ) == liked(s.likes, other_user, other_content))
            &&& (other_content != content_id ==> count_of(s1.likes, other_content) == count_of(
                s.likes,
                other_content,
            ))
        }),
{
    let (s1, r1) = like_outcome(s, auth, user, content_id);
    assert(content_id as u64 == content_id as int && other_content as u64 == other_content as int);
}

} // verus!
