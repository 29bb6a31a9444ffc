//! The read-only accessor over persisted aggregate counters, together with a
//! model of the snapshot it reads: one counter row per live community,
//! mutated only as the transactional side effect of entity lifecycle events
//! (follow, unfollow, post and comment creation, cascading deletes). The core
//! itself only ever fetches a row by community id.

use vstd::prelude::*;

verus! {

/// Per-community aggregate counters, as the persistence layer keeps them.
#[derive(Debug, Clone, Copy, PartialEq, Eq, Structural)]
pub struct CommunityAggregates {
    pub community_id: u64,
    pub subscribers: u64,
    pub posts: u64,
    pub comments: u64,
}

/// How a snapshot operation fails.
#[derive(Debug, Clone, Copy, PartialEq, Eq, Structural)]
pub enum StoreError {
    /// No row exists for the community id, including after a cascade delete.
    NotFound,
    /// The community already has a row, so a second one may not be created.
    AlreadyExists,
    /// A counter cannot grow past its machine limit.
    CounterOverflow,
    /// A counter cannot drop below zero.
    CounterUnderflow,
}

impl StoreError {
    /// Turn a snapshot failure into a cause for the unified container: only
    /// the missing-row failure carries the not-found marker the classifier
    /// asks about.
    pub fn into_cause(self) -> (r: crate::error::Cause)
        ensures
            r.not_found == (self is NotFound),
    {
        match self {
            StoreError::NotFound => crate::error::Cause::record_not_found(
                String::from_str("Record not found"),
            ),
            StoreError::AlreadyExists => crate::error::Cause::new(
                String::from_str("row already exists"),
            ),
            StoreError::CounterOverflow => crate::error::Cause::new(
                String::from_str("counter overflow"),
            ),
            StoreError::CounterUnderflow => crate::error::Cause::new(
                String::from_str("counter underflow"),
            ),
        }
    }
}

/// The first row of a sequence holding the given community id, if any.
pub open spec fn find_row(s: Seq<CommunityAggregates>, community_id: u64) -> Option<
    CommunityAggregates,
>
    decreases s.len(),
{
    if s.len() == 0 {
        None
    } else if s[0].community_id == community_id {
        Some(s[0])
    } else {
        find_row(s.drop_first(), community_id)
    }
}

/// No two rows of the sequence share a community id.
pub open spec fn unique_ids(s: Seq<CommunityAggregates>) -> bool {
    forall|i: int, j: int|
        0 <= i < j < s.len() ==> (#[trigger] s[i]).community_id != (#[trigger] s[j]).community_id
}

proof fn lemma_find_row_characterize(s: Seq<CommunityAggregates>, community_id: u64)
    ensures
        match find_row(s, community_id) {
            Some(r) => r.community_id == community_id && exists|j: int|
                0 <= j < s.len() && s[j] == r,
            None => forall|j: int| 0 <= j < s.len() ==> s[j].community_id != community_id,
        },
    decreases s.len(),
{
    if s.len() > 0 && s[0].community_id != community_id {
        lemma_find_row_characterize(s.drop_first(), community_id);
        match find_row(s.drop_first(), community_id) {
            Some(r) => {
                let j = choose|j: int| 0 <= j < s.drop_first().len() && s.drop_first()[j] == r;
                assert(s[j + 1] == r);
            },
            None => {
                assert forall|j: int| 0 <= j < s.len() implies s[j].community_id != community_id by {
                    if j > 0 {
                        assert(s.drop_first()[j - 1] == s[j]);
                    }
                }
            },
        }
    }
}

proof fn lemma_find_row_update(
    s: Seq<CommunityAggregates>,
    i: int,
    r: CommunityAggregates,
    community_id: u64,
)
    requires
        0 <= i < s.len(),
        s[i].community_id == r.community_id,
        forall|j: int| 0 <= j < i ==> s[j].community_id != r.community_id,
    ensures
        find_row(s.update(i, r), r.community_id) == Some(r),
        community_id != r.community_id ==> find_row(s.update(i, r), community_id) == find_row(
            s,
            community_id,
        ),
    decreases i,
{
    if i == 0 {
        assert(s.update(0, r).drop_first() =~= s.drop_first());
    } else {
        assert(s.update(i, r).drop_first() =~= s.drop_first().update(i - 1, r));
        assert(forall|j: int| 0 <= j < i - 1 ==> s.drop_first()[j] == s[j + 1]);
        assert(s.drop_first()[i - 1] == s[i]);
        lemma_find_row_update(s.drop_first(), i - 1, r, community_id);
    }
}

proof fn lemma_find_row_push(s: Seq<CommunityAggregates>, r: CommunityAggregates, community_id: u64)
    requires
        find_row(s, r.community_id) is None,
    ensures
        find_row(s.push(r), r.community_id) == Some(r),
        community_id != r.community_id ==> find_row(s.push(r), community_id) == find_row(
            s,
            community_id,
        ),
    decreases s.len(),
{
    if s.len() == 0 {
        assert(s.push(r).drop_first() =~= Seq::<CommunityAggregates>::empty());
    } else {
        assert(s.push(r).drop_first() =~= s.drop_first().push(r));
        lemma_find_row_push(s.drop_first(), r, community_id);
    }
}

proof fn lemma_find_row_remove(s: Seq<CommunityAggregates>, i: int, community_id: u64)
    requires
        unique_ids(s),
        0 <= i < s.len(),
    ensures
        find_row(s.remove(i), s[i].community_id) is None,
        community_id != s[i].community_id ==> find_row(s.remove(i), community_id) == find_row(
            s,
            community_id,
        ),
{
    let t = s.remove(i);
    assert(forall|j: int| 0 <= j < i ==> t[j] == s[j]);
    assert(forall|j: int| i <= j < t.len() ==> t[j] == s[j + 1]);
    lemma_find_row_characterize(t, s[i].community_id);
    if find_row(t, s[i].community_id) is Some {
        let r = find_row(t, s[i].community_id)->Some_0;
        let j = choose|j: int| 0 <= j < t.len() && t[j] == r;
        if j < i {
            assert(s[j].community_id == s[i].community_id);
        } else {
            assert(s[j + 1].community_id == s[i].community_id);
        }
        assert(false);
    }
    if community_id != s[i].community_id {
        lemma_find_row_characterize(t, community_id);
        lemma_find_row_characterize(s, community_id);
        match find_row(s, community_id) {
            Some(r) => {
                let j = choose|j: int| 0 <= j < s.len() && s[j] == r;
                if j < i {
                    assert(t[j] == r);
                } else {
                    assert(j != i);
                    assert(t[j - 1] == r);
                }
                match find_row(t, community_id) {
                    Some(r2) => {
                        let j2 = choose|j2: int| 0 <= j2 < t.len() && t[j2] == r2;
                        let k2: int = if j2 < i { j2 } else { j2 + 1 };
                        assert(s[k2] == r2);
                        let k = choose|k: int| 0 <= k < s.len() && s[k] == r;
                        if k != k2 {
                            assert(s[k].community_id == s[k2].community_id);
                            assert(false);
                        }
                    },
                    None => {
                        let k: int = if j < i { j } else { j - 1 };
                        assert(t[k] == r);
                        assert(false);
                    },
                }
            },
            None => {
                if find_row(t, community_id) is Some {
                    let r2 = find_row(t, community_id)->Some_0;
                    let j2 = choose|j2: int| 0 <= j2 < t.len() && t[j2] == r2;
                    let k2: int = if j2 < i { j2 } else { j2 + 1 };
                    assert(s[k2] == r2);
                    assert(false);
                }
            },
        }
    }
}

/// The snapshot of persisted counters: one row per live community. The
/// mutating operations model the transactional triggers of the persistence
/// layer; each leaves every other community's row untouched, so a fetch
/// always sees a consistent snapshot.
pub struct AggregateStore {
    pub rows: Vec<CommunityAggregates>,
}

impl AggregateStore {
    /// One row per community: no two rows share a community id.
    pub open spec fn wf(self) -> bool {
        unique_ids(self.rows@)
    }

    /// The counter row a community id holds, if any.
    pub open spec fn row_spec(self, community_id: u64) -> Option<CommunityAggregates> {
        find_row(self.rows@, community_id)
    }

    /// An empty snapshot: no community has a row.
    pub fn new() -> (r: AggregateStore)
        ensures
            r.wf(),
            forall|id: u64| r.row_spec(id) is None,
    {
        AggregateStore { rows: Vec::new() }
    }

    fn find_index(&self, community_id: u64) -> (r: Option<usize>)
        ensures
            match r {
                Some(i) => i < self.rows@.len() && self.rows@[i as int].community_id == community_id
                    && self.row_spec(community_id) == Some(self.rows@[i as int]) && forall|j: int|
                    0 <= j < i ==> self.rows@[j].community_id != community_id,
                None => self.row_spec(community_id) is None,
            },
    {
        let n = self.rows.len();
        let mut i: usize = 0;
        proof {
            assert(self.rows@.skip(0) =~= self.rows@);
        }
        while i < n
            invariant
                i <= n,
                n == self.rows@.len(),
                forall|j: int| 0 <= j < i ==> self.rows@[j].community_id != community_id,
                find_row(self.rows@, community_id) == find_row(
                    self.rows@.skip(i as int),
                    community_id,
                ),
            decreases n - i,
        {
            proof {
                assert(self.rows@.skip(i as int)[0] == self.rows@[i as int]);
                assert(self.rows@.skip(i as int).drop_first() =~= self.rows@.skip(i + 1));
            }
            if self.rows[i].community_id == community_id {
                return Some(i);
            }
            i += 1;
        }
        None
    }

    /// A community came into being: its row is created with all counters at
    /// zero. Fails exactly when the community already has a row, leaving the
    /// snapshot unchanged.
    pub fn create_community(&mut self, community_id: u64) -> (r: Result<(), StoreError>)
        requires
            old(self).wf(),
        ensures
            final(self).wf(),
            match r {
                Ok(()) => old(self).row_spec(community_id) is None && final(self).row_spec(
                    community_id,
                ) == Some(
                    CommunityAggregates { community_id, subscribers: 0, posts: 0, comments: 0 },
                ),
                Err(e) => e == StoreError::AlreadyExists && old(self).row_spec(community_id)
                    is Some && *final(self) == *old(self),
            },
            forall|id: u64| id != community_id ==> final(self).row_spec(id) == old(self).row_spec(
                id,
            ),
    {
        match self.find_index(community_id) {
            Some(_) => Err(StoreError::AlreadyExists),
            None => {
                let row = CommunityAggregates { community_id, subscribers: 0, posts: 0, comments: 0 };
                proof {
                    lemma_find_row_push(self.rows@, row, community_id);
                }
                assert forall|id: u64| id != community_id implies find_row(
                    self.rows@.push(row),
                    id,
                ) == find_row(self.rows@, id) by {
                    lemma_find_row_push(self.rows@, row, id);
                }
                proof {
                    lemma_find_row_characterize(self.rows@, community_id);
                    assert forall|i: int, j: int|
                        0 <= i < j < self.rows@.push(row).len() implies (#[trigger] self.rows@.push(
                        row,
                    )[i]).community_id != (#[trigger] self.rows@.push(row)[j]).community_id by {
                        if j < self.rows@.len() {
                            assert(self.rows@[i].community_id != self.rows@[j].community_id);
                        }
                    }
                }
                self.rows.push(row);
                Ok(())
            },
        }
    }

    fn replace_counters(&mut self, i: usize, row: CommunityAggregates)
        requires
            old(self).wf(),
            i < old(self).rows@.len(),
            old(self).rows@[i as int].community_id == row.community_id,
            forall|j: int| 0 <= j < i ==> old(self).rows@[j].community_id != row.community_id,
        ensures
            final(self).wf(),
            final(self).row_spec(row.community_id) == Some(row),
            forall|id: u64| id != row.community_id ==> final(self).row_spec(id) == old(
                self,
            ).row_spec(id),
    {
        proof {
            lemma_find_row_update(self.rows@, i as int, row, row.community_id);
        }
        assert forall|id: u64| id != row.community_id implies find_row(
            self.rows@.update(i as int, row),
            id,
        ) == find_row(self.rows@, id) by {
            lemma_find_row_update(self.rows@, i as int, row, id);
        }
        proof {
            assert forall|a: int, b: int|
                0 <= a < b < self.rows@.update(i as int, row).len() implies (
            #[trigger] self.rows@.update(i as int, row)[a]).community_id != (
            #[trigger] self.rows@.update(i as int, row)[b]).community_id by {
                assert(self.rows@[a].community_id != self.rows@[b].community_id);
            }
        }
        self.rows.set(i, row);
    }

    /// A person followed the community: its subscriber count rises by one.
    /// Fails with not-found when the community has no row, and with overflow
    /// when the count is at its machine limit; either failure leaves the
    /// snapshot unchanged.
    pub fn on_follow(&mut self, community_id: u64) -> (r: Result<(), StoreError>)
        requires
            old(self).wf(),
        ensures
            final(self).wf(),
            match r {
                Ok(()) => old(self).row_spec(community_id) is Some && old(self).row_spec(
                    community_id,
                )->Some_0.subscribers < u64::MAX && final(self).row_spec(community_id) == Some(
                    CommunityAggregates {
                        subscribers: (old(self).row_spec(community_id)->Some_0.subscribers
                            + 1) as u64,
                        ..old(self).row_spec(community_id)->Some_0
                    },
                ),
                Err(e) => *final(self) == *old(self) && match e {
                    StoreError::NotFound => old(self).row_spec(community_id) is None,
                    StoreError::CounterOverflow => old(self).row_spec(community_id) is Some && old(
                        self,
                    ).row_spec(community_id)->Some_0.subscribers == u64::MAX,
                    _ => false,
                },
            },
            forall|id: u64| id != community_id ==> final(self).row_spec(id) == old(self).row_spec(
                id,
            ),
    {
        match self.find_index(community_id) {
            None => Err(StoreError::NotFound),
            Some(i) => {
                let row = self.rows[i];
                if row.subscribers == u64::MAX {
                    return Err(StoreError::CounterOverflow);
                }
                self.replace_counters(i, CommunityAggregates { subscribers: row.subscribers + 1, ..row });
                Ok(())
            },
        }
    }

    /// A follow was withdrawn: the subscriber count drops by one. Fails with
    /// not-found when the community has no row, and with underflow when the
    /// count is already zero; either failure leaves the snapshot unchanged.
    pub fn on_unfollow(&mut self, community_id: u64) -> (r: Result<(), StoreError>)
        requires
            old(self).wf(),
        ensures
            final(self).wf(),
            match r {
                Ok(()) => old(self).row_spec(community_id) is Some && old(self).row_spec(
                    community_id,
                )->Some_0.subscribers > 0 && final(self).row_spec(community_id) == Some(
                    CommunityAggregates {
                        subscribers: (old(self).row_spec(community_id)->Some_0.subscribers
                            - 1) as u64,
                        ..old(self).row_spec(community_id)->Some_0
                    },
                ),
                Err(e) => *final(self) == *old(self) && match e {
                    StoreError::NotFound => old(self).row_spec(community_id) is None,
                    StoreError::CounterUnderflow => old(self).row_spec(community_id) is Some && old(
                        self,
                    ).row_spec(community_id)->Some_0.subscribers == 0,
                    _ => false,
                },
            },
            forall|id: u64| id != community_id ==> final(self).row_spec(id) == old(self).row_spec(
                id,
            ),
    {
        match self.find_index(community_id) {
            None => Err(StoreError::NotFound),
            Some(i) => {
                let row = self.rows[i];
                if row.subscribers == 0 {
                    return Err(StoreError::CounterUnderflow);
                }
                self.replace_counters(i, CommunityAggregates { subscribers: row.subscribers - 1, ..row });
                Ok(())
            },
        }
    }

    /// A post was created in the community: its post count rises by one.
    pub fn on_post_created(&mut self, community_id: u64) -> (r: Result<(), StoreError>)
        requires
            old(self).wf(),
        ensures
            final(self).wf(),
            match r {
                Ok(()) => old(self).row_spec(community_id) is Some && old(self).row_spec(
                    community_id,
                )->Some_0.posts < u64::MAX && final(self).row_spec(community_id) == Some(
                    CommunityAggregates {
                        posts: (old(self).row_spec(community_id)->Some_0.posts + 1) as u64,
                        ..old(self).row_spec(community_id)->Some_0
                    },
                ),
                Err(e) => *final(self) == *old(self) && match e {
                    StoreError::NotFound => old(self).row_spec(community_id) is None,
                    StoreError::CounterOverflow => old(self).row_spec(community_id) is Some && old(
                        self,
                    ).row_spec(community_id)->Some_0.posts == u64::MAX,
                    _ => false,
                },
            },
            forall|id: u64| id != community_id ==> final(self).row_spec(id) == old(self).row_spec(
                id,
            ),
    {
        match self.find_index(community_id) {
            None => Err(StoreError::NotFound),
            Some(i) => {
                let row = self.rows[i];
                if row.posts == u64::MAX {
                    return Err(StoreError::CounterOverflow);
                }
                self.replace_counters(i, CommunityAggregates { posts: row.posts + 1, ..row });
                Ok(())
            },
        }
    }

    /// A comment was created under one of the community's posts: its comment
    /// count rises by one.
    pub fn on_comment_created(&mut self, community_id: u64) -> (r: Result<(), StoreError>)
        requires
            old(self).wf(),
        ensures
            final(self).wf(),
            match r {
                Ok(()) => old(self).row_spec(community_id) is Some && old(self).row_spec(
                    community_id,
                )->Some_0.comments < u64::MAX && final(self).row_spec(community_id) == Some(
                    CommunityAggregates {
                        comments: (old(self).row_spec(community_id)->Some_0.comments + 1) as u64,
                        ..old(self).row_spec(community_id)->Some_0
                    },
                ),
                Err(e) => *final(self) == *old(self) && match e {
                    StoreError::NotFound => old(self).row_spec(community_id) is None,
                    StoreError::CounterOverflow => old(self).row_spec(community_id) is Some && old(
                        self,
                    ).row_spec(community_id)->Some_0.comments == u64::MAX,
                    _ => false,
                },
            },
            forall|id: u64| id != community_id ==> final(self).row_spec(id) == old(self).row_spec(
                id,
            ),
    {
        match self.find_index(community_id) {
            None => Err(StoreError::NotFound),
            Some(i) => {
                let row = self.rows[i];
                if row.comments == u64::MAX {
                    return Err(StoreError::CounterOverflow);
                }
                self.replace_counters(i, CommunityAggregates { comments: row.comments + 1, ..row });
                Ok(())
            },
        }
    }

    /// A post was deleted, cascading over its comments: the post count drops
    /// by one and the comment count by the number of comments the post held.
    /// Fails with underflow when the counters cannot cover that, leaving the
    /// snapshot unchanged.
    pub fn on_post_deleted(&mut self, community_id: u64, comments_removed: u64) -> (r: Result<
        (),
        StoreError,
    >)
        requires
            old(self).wf(),
        ensures
            final(self).wf(),
            match r {
                Ok(()) => old(self).row_spec(community_id) is Some && old(self).row_spec(
                    community_id,
                )->Some_0.posts > 0 && old(self).row_spec(community_id)->Some_0.comments
                    >= comments_removed && final(self).row_spec(community_id) == Some(
                    CommunityAggregates {
                        posts: (old(self).row_spec(community_id)->Some_0.posts - 1) as u64,
                        comments: (old(self).row_spec(community_id)->Some_0.comments
                            - comments_removed) as u64,
                        ..old(self).row_spec(community_id)->Some_0
                    },
                ),
                Err(e) => *final(self) == *old(self) && match e {
                    StoreError::NotFound => old(self).row_spec(community_id) is None,
                    StoreError::CounterUnderflow => old(self).row_spec(community_id) is Some && (
                    old(self).row_spec(community_id)->Some_0.posts == 0 || old(self).row_spec(
                        community_id,
                    )->Some_0.comments < comments_removed),
                    _ => false,
                },
            },
            forall|id: u64| id != community_id ==> final(self).row_spec(id) == old(self).row_spec(
                id,
            ),
    {
        match self.find_index(community_id) {
            None => Err(StoreError::NotFound),
            Some(i) => {
                let row = self.rows[i];
                if row.posts == 0 || row.comments < comments_removed {
                    return Err(StoreError::CounterUnderflow);
                }
                self.replace_counters(
                    i,
                    CommunityAggregates {
                        posts: row.posts - 1,
                        comments: row.comments - comments_removed,
                        ..row
                    },
                );
                Ok(())
            },
        }
    }

    /// The community was deleted: its row is cascade-removed, so a later
    /// fetch for it fails with not-found. Fails exactly when no row exists,
    /// leaving the snapshot unchanged.
    pub fn on_community_deleted(&mut self, community_id: u64) -> (r: Result<(), StoreError>)
        requires
            old(self).wf(),
        ensures
            final(self).wf(),
            match r {
                Ok(()) => old(self).row_spec(community_id) is Some && final(self).row_spec(
                    community_id,
                ) is None,
                Err(e) => e == StoreError::NotFound && old(self).row_spec(community_id) is None
                    && *final(self) == *old(self),
            },
            forall|id: u64| id != community_id ==> final(self).row_spec(id) == old(self).row_spec(
                id,
            ),
    {
        match self.find_index(community_id) {
            None => Err(StoreError::NotFound),
            Some(i) => {
                proof {
                    lemma_find_row_remove(self.rows@, i as int, community_id);
                }
                assert forall|id: u64| id != community_id implies find_row(
                    self.rows@.remove(i as int),
                    id,
                ) == find_row(self.rows@, id) by {
                    lemma_find_row_remove(self.rows@, i as int, id);
                }
                proof {
                    let t = self.rows@.remove(i as int);
                    assert forall|a: int, b: int| 0 <= a < b < t.len() implies (
                    #[trigger] t[a]).community_id != (#[trigger] t[b]).community_id by {
                        let a2: int = if a < i { a } else { a + 1 };
                        let b2: int = if b < i { b } else { b + 1 };
                        assert(t[a] == self.rows@[a2]);
                        assert(t[b] == self.rows@[b2]);
                        assert(self.rows@[a2].community_id != self.rows@[b2].community_id);
                    }
                }
                self.rows.remove(i);
                Ok(())
            },
        }
    }
}

impl CommunityAggregates {
    /// Fetch the counter row of a community: the single read this core ever
    /// issues against the snapshot. Succeeds with the current counters
    /// exactly when the community has a row; otherwise the not-found failure
    /// comes back.
    pub fn read(store: &AggregateStore, community_id: u64) -> (r: Result<
        CommunityAggregates,
        StoreError,
    >)
        ensures
            match r {
                Ok(a) => store.row_spec(community_id) == Some(a),
                Err(e) => e == StoreError::NotFound && store.row_spec(community_id) is None,
            },
    {
        match store.find_index(community_id) {
            Some(i) => Ok(store.rows[i]),
            None => Err(StoreError::NotFound),
        }
    }
}

/// Fetch a community's counters as the surrounding operation would: a hit
/// hands the row back, a miss surfaces an unclassified container whose cause
/// carries the not-found marker, so it classifies to the not-found status.
pub fn fetch_counters(store: &AggregateStore, community_id: u64) -> (r: Result<
    CommunityAggregates,
    crate::error::LemmyError,
>)
    ensures
        match r {
            Ok(a) => store.row_spec(community_id) == Some(a),
            Err(e) => store.row_spec(community_id) is None && e.error_type is None
                && e.inner.not_found,
        },
{
    match CommunityAggregates::read(store, community_id) {
        Ok(a) => Ok(a),
        Err(e) => Err(crate::error::LemmyError::wrap_unclassified(e.into_cause())),
    }
}

} // verus!
