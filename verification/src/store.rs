//! The lock store: sole authority for per-buffer lock state.
//!
//! Every transition offered here — claim, release, renew, sweep — is a single
//! call that tests its condition and mutates in one step, mirroring one
//! conditional write against the backing table.  No caller can observe a
//! state between the test and the write, which is what rules out the
//! check-then-act race.

use vstd::prelude::*;

verus! {

/// Identity of a shared editable buffer.
#[derive(Clone, Copy, PartialEq, Eq, Structural, Debug, Hash)]
pub struct BufferId(pub u64);

/// Identity of a user of the editor.
#[derive(Clone, Copy, PartialEq, Eq, Structural, Debug, Hash)]
pub struct UserId(pub u64);

/// One row of lock state: which user, if any, holds the buffer, when the
/// lock was taken and when the holder was last heard from.  `holder` is
/// `None` exactly when the buffer is unlocked; the timestamps of an unlocked
/// record are cleared to zero.
#[derive(Clone, Copy, PartialEq, Eq, Debug)]
pub struct LockRecord {
    pub buffer_id: BufferId,
    pub holder: Option<UserId>,
    pub acquired_at: u64,
    pub last_heartbeat_at: u64,
}

/// The record a buffer carries once its lock state has been cleared.
pub open spec fn cleared_record(b: BufferId) -> LockRecord {
    LockRecord { buffer_id: b, holder: None, acquired_at: 0, last_heartbeat_at: 0 }
}

/// Position of the first record for buffer `b`, if any.
pub open spec fn find_idx(s: Seq<LockRecord>, b: BufferId) -> Option<int>
    decreases s.len(),
{
    if s.len() == 0 {
        None
    } else if s[0].buffer_id == b {
        Some(0)
    } else {
        match find_idx(s.drop_first(), b) {
            Some(i) => Some(i + 1),
            None => None,
        }
    }
}

/// The record for buffer `b`, if any.
pub open spec fn lookup(s: Seq<LockRecord>, b: BufferId) -> Option<LockRecord> {
    match find_idx(s, b) {
        Some(i) => Some(s[i]),
        None => None,
    }
}

/// `find_idx` returns the position of the first record of `b`, and `None`
/// exactly when no record of `b` exists.
pub proof fn lemma_find_idx_props(s: Seq<LockRecord>, b: BufferId)
    ensures
        match find_idx(s, b) {
            Some(i) => {
                &&& 0 <= i < s.len()
                &&& s[i].buffer_id == b
                &&& forall|j: int| 0 <= j < i ==> (#[trigger] s[j]).buffer_id != b
            },
            None => forall|j: int| 0 <= j < s.len() ==> (#[trigger] s[j]).buffer_id != b,
        },
    decreases s.len(),
{
    if s.len() > 0 && s[0].buffer_id != b {
        lemma_find_idx_props(s.drop_first(), b);
        match find_idx(s.drop_first(), b) {
            Some(i) => {
                assert(find_idx(s, b) == Some(i + 1));
                assert(s[i + 1] == s.drop_first()[i]);
                assert forall|j: int| 0 <= j < i + 1 implies (#[trigger] s[j]).buffer_id != b by {
                    if j >= 1 {
                        assert(s[j] == s.drop_first()[j - 1]);
                    }
                }
            },
            None => {
                assert forall|j: int| 0 <= j < s.len() implies (#[trigger] s[j]).buffer_id != b by {
                    if j >= 1 {
                        assert(s[j] == s.drop_first()[j - 1]);
                    }
                }
            },
        }
    }
}

/// A match at `i` with no earlier match pins `find_idx` down to `i`.
pub proof fn lemma_find_idx_at(s: Seq<LockRecord>, b: BufferId, i: int)
    requires
        0 <= i < s.len(),
        s[i].buffer_id == b,
        forall|j: int| 0 <= j < i ==> (#[trigger] s[j]).buffer_id != b,
    ensures
        find_idx(s, b) == Some(i),
{
    lemma_find_idx_props(s, b);
    match find_idx(s, b) {
        Some(k) => {
            if k < i {
                assert(s[k].buffer_id != b);
            } else if k > i {
                assert(s[i].buffer_id != b);
            }
        },
        None => {
            assert(s[i].buffer_id != b);
        },
    }
}

/// Two stores whose records list the same buffers in the same positions
/// agree on where each buffer's record sits.
pub proof fn lemma_find_idx_same_ids(s1: Seq<LockRecord>, s2: Seq<LockRecord>, b: BufferId)
    requires
        s1.len() == s2.len(),
        forall|j: int| 0 <= j < s1.len() ==> (#[trigger] s1[j]).buffer_id == (#[trigger] s2[j]).buffer_id,
    ensures
        find_idx(s1, b) == find_idx(s2, b),
    decreases s1.len(),
{
    if s1.len() > 0 {
        assert(forall|j: int| 0 <= j < s1.drop_first().len()
            ==> (#[trigger] s1.drop_first()[j]).buffer_id == (#[trigger] s2.drop_first()[j]).buffer_id)
        by {
            assert(forall|j: int| 0 <= j < s1.drop_first().len()
                ==> (#[trigger] s1.drop_first()[j]) == s1[j + 1] && (#[trigger] s2.drop_first()[j]) == s2[j + 1]);
        }
        lemma_find_idx_same_ids(s1.drop_first(), s2.drop_first(), b);
    }
}

/// Appending a record leaves every earlier position as it was and adds a
/// match only for the appended buffer.
pub proof fn lemma_find_idx_push(s: Seq<LockRecord>, r: LockRecord, b: BufferId)
    ensures
        find_idx(s.push(r), b) == (match find_idx(s, b) {
            Some(i) => Some(i),
            None => if r.buffer_id == b { Some(s.len() as int) } else { None::<int> },
        }),
    decreases s.len(),
{
    if s.len() == 0 {
        assert(s.push(r)[0] == r);
        assert(s.push(r).len() == 1);
        if r.buffer_id != b {
            assert(s.push(r).drop_first() =~= Seq::<LockRecord>::empty());
            assert(find_idx(Seq::<LockRecord>::empty(), b) is None);
            assert(find_idx(s.push(r), b) is None);
        }
    } else {
        assert(s.push(r).drop_first() =~= s.drop_first().push(r));
        assert(s.push(r)[0] == s[0]);
        lemma_find_idx_push(s.drop_first(), r, b);
        if s[0].buffer_id != b {
            match find_idx(s.drop_first(), b) {
                Some(i) => {
                    assert(find_idx(s, b) == Some(i + 1));
                    assert(find_idx(s.push(r), b) == Some(i + 1));
                },
                None => {
                    assert(find_idx(s, b) is None);
                    assert(s.drop_first().len() as int + 1 == s.len() as int);
                },
            }
        }
    }
}

/// True when a held record has gone unrenewed for longer than `threshold`
/// milliseconds as of `now`.
pub open spec fn rec_expired(r: LockRecord, now: u64, threshold: u64) -> bool {
    &&& r.holder is Some
    &&& now >= r.last_heartbeat_at
    &&& now - r.last_heartbeat_at > threshold
}

/// How many of the first `n` records are expired.
pub open spec fn count_expired_upto(s: Seq<LockRecord>, now: u64, threshold: u64, n: int) -> nat
    decreases n,
{
    if n <= 0 {
        0
    } else {
        count_expired_upto(s, now, threshold, n - 1)
            + (if rec_expired(s[n - 1], now, threshold) { 1nat } else { 0nat })
    }
}

/// How many records of the whole store are expired.
pub open spec fn count_expired(s: Seq<LockRecord>, now: u64, threshold: u64) -> nat {
    count_expired_upto(s, now, threshold, s.len() as int)
}

/// Durable record of which user, if any, holds each buffer's lock.
///
/// All transitions are atomic: each method makes its whole decision and its
/// whole mutation in one call, exactly as the backing table performs one
/// conditional write.
pub struct LockStore {
    records: Vec<LockRecord>,
}

impl View for LockStore {
    type V = Seq<LockRecord>;

    closed spec fn view(&self) -> Seq<LockRecord> {
        self.records@
    }
}

impl LockStore {
    /// The record kept for buffer `b`, if any.
    pub open spec fn rec_of(self, b: BufferId) -> Option<LockRecord> {
        lookup(self@, b)
    }

    /// The user currently holding buffer `b`, if any.
    pub open spec fn holder_of(self, b: BufferId) -> Option<UserId> {
        match self.rec_of(b) {
            Some(r) => r.holder,
            None => None,
        }
    }

    /// Well-formedness: at most one record per buffer, and a held record was
    /// renewed no earlier than it was acquired.
    pub open spec fn wf(self) -> bool {
        &&& forall|i: int, j: int|
            0 <= i < j < self@.len()
                ==> (#[trigger] self@[i]).buffer_id != (#[trigger] self@[j]).buffer_id
        &&& forall|i: int|
            0 <= i < self@.len() && (#[trigger] self@[i]).holder is Some
                ==> self@[i].acquired_at <= self@[i].last_heartbeat_at
    }

    /// A fresh store: every buffer unlocked.
    pub fn new() -> (s: LockStore)
        ensures
            s.wf(),
            s@ == Seq::<LockRecord>::empty(),
            forall|b: BufferId| #[trigger] s.rec_of(b) is None,
    {
        LockStore { records: Vec::new() }
    }

    /// Position of buffer `b`'s record in the backing vector, if any.
    fn find_index(&self, b: BufferId) -> (r: Option<usize>)
        ensures
            match r {
                Some(i) => find_idx(self@, b) == Some(i as int),
                None => find_idx(self@, b) is None,
            },
    {
        let n = self.records.len();
        let mut i: usize = 0;
        while i < n
            invariant
                n == self.records.len(),
                i <= n,
                forall|j: int| 0 <= j < i ==> (#[trigger] self.records@[j]).buffer_id != b,
            decreases n - i,
        {
            if self.records[i].buffer_id == b {
                proof {
                    lemma_find_idx_at(self@, b, i as int);
                }
                return Some(i);
            }
            i += 1;
        }
        proof {
            lemma_find_idx_props(self@, b);
            match find_idx(self@, b) {
                Some(k) => {
                    assert(self@[k].buffer_id != b);
                },
                None => {},
            }
        }
        None
    }

    /// The atomic claim: locks `buffer_id` for `user_id` **iff** no user
    /// holds it, in one indivisible step.  This is the single
    /// correctness-critical transition of the whole service: among any
    /// number of contending claims on a free buffer exactly the first one to
    /// run here wins, because the availability test and the write happen in
    /// the same call, with no observable state in between.
    pub fn try_claim(&mut self, buffer_id: BufferId, user_id: UserId, now: u64) -> (claimed: bool)
        requires
            old(self).wf(),
        ensures
            final(self).wf(),
            claimed == (old(self).holder_of(buffer_id) is None),
            claimed ==> final(self).rec_of(buffer_id) == Some((LockRecord {
                buffer_id,
                holder: Some(user_id),
                acquired_at: now,
                last_heartbeat_at: now,
            })),
            !claimed ==> final(self)@ == old(self)@,
            forall|b: BufferId| b != buffer_id ==> #[trigger] final(self).rec_of(b) == old(self).rec_of(b),
    {
        let new_rec = LockRecord {
            buffer_id,
            holder: Some(user_id),
            acquired_at: now,
            last_heartbeat_at: now,
        };
        match self.find_index(buffer_id) {
            Some(i) => {
                proof {
                    lemma_find_idx_props(self@, buffer_id);
                }
                if self.records[i].holder.is_none() {
                    let ghost prev = self.records@;
                    self.records.set(i, new_rec);
                    proof {
                        self.lemma_after_update(prev, i as int, buffer_id);
                    }
                    true
                } else {
                    false
                }
            },
            None => {
                let ghost prev = self.records@;
                proof {
                    lemma_find_idx_props(prev, buffer_id);
                }
                self.records.push(new_rec);
                proof {
                    assert forall|b: BufferId| b != buffer_id
                        implies #[trigger] lookup(self@, b) == lookup(prev, b) by {
                        lemma_find_idx_push(prev, new_rec, b);
                        lemma_find_idx_props(prev, b);
                    }
                    lemma_find_idx_push(prev, new_rec, buffer_id);
                    assert(self@[prev.len() as int] == new_rec);
                    assert forall|i: int, j: int| 0 <= i < j < self@.len()
                        implies (#[trigger] self@[i]).buffer_id != (#[trigger] self@[j]).buffer_id by {
                        if j == prev.len() as int {
                            assert(prev[i].buffer_id != buffer_id);
                        }
                    }
                }
                true
            },
        }
    }

    /// Atomically clears the lock on `buffer_id` **iff** `user_id` is the
    /// current holder; reports whether the release took effect.  A mismatched
    /// user changes nothing: the test and the clear are one step.
    pub fn release(&mut self, buffer_id: BufferId, user_id: UserId) -> (released: bool)
        requires
            old(self).wf(),
        ensures
            final(self).wf(),
            released == (old(self).holder_of(buffer_id) == Some(user_id)),
            released ==> final(self).rec_of(buffer_id) == Some(cleared_record(buffer_id)),
            !released ==> final(self)@ == old(self)@,
            forall|b: BufferId| b != buffer_id ==> #[trigger] final(self).rec_of(b) == old(self).rec_of(b),
    {
        match self.find_index(buffer_id) {
            Some(i) => {
                proof {
                    lemma_find_idx_props(self@, buffer_id);
                }
                let held_by_caller = match self.records[i].holder {
                    Some(h) => h == user_id,
                    None => false,
                };
                if held_by_caller {
                    let ghost prev = self.records@;
                    self.records.set(i, LockRecord {
                        buffer_id,
                        holder: None,
                        acquired_at: 0,
                        last_heartbeat_at: 0,
                    });
                    proof {
                        self.lemma_after_update(prev, i as int, buffer_id);
                    }
                    true
                } else {
                    false
                }
            },
            None => false,
        }
    }

    /// Atomically advances `last_heartbeat_at` on `buffer_id`'s lock **iff**
    /// `user_id` is the current holder; never moves it backwards.
    pub fn renew(&mut self, buffer_id: BufferId, user_id: UserId, now: u64) -> (renewed: bool)
        requires
            old(self).wf(),
        ensures
            final(self).wf(),
            renewed == (old(self).holder_of(buffer_id) == Some(user_id)),
            renewed ==> (old(self).rec_of(buffer_id) matches Some(r)
                && final(self).rec_of(buffer_id) == Some((LockRecord {
                    buffer_id,
                    holder: Some(user_id),
                    acquired_at: r.acquired_at,
                    last_heartbeat_at: if now >= r.last_heartbeat_at { now } else { r.last_heartbeat_at },
                }))),
            !renewed ==> final(self)@ == old(self)@,
            forall|b: BufferId| b != buffer_id ==> #[trigger] final(self).rec_of(b) == old(self).rec_of(b),
    {
        match self.find_index(buffer_id) {
            Some(i) => {
                proof {
                    lemma_find_idx_props(self@, buffer_id);
                }
                let rec = self.records[i];
                let held_by_caller = match rec.holder {
                    Some(h) => h == user_id,
                    None => false,
                };
                if held_by_caller {
                    let ghost prev = self.records@;
                    let renewed_at = if now >= rec.last_heartbeat_at { now } else { rec.last_heartbeat_at };
                    self.records.set(i, LockRecord {
                        buffer_id,
                        holder: Some(user_id),
                        acquired_at: rec.acquired_at,
                        last_heartbeat_at: renewed_at,
                    });
                    proof {
                        self.lemma_after_update(prev, i as int, buffer_id);
                    }
                    true
                } else {
                    false
                }
            },
            None => false,
        }
    }

    /// Read-only snapshot of `buffer_id`'s lock state, for observability
    /// only.  Its result must never gate a later write: that is what
    /// [`LockStore::try_claim`] is for.
    pub fn peek(&self, buffer_id: BufferId) -> (r: Option<LockRecord>)
        ensures
            r == self.rec_of(buffer_id),
    {
        match self.find_index(buffer_id) {
            Some(i) => {
                proof {
                    lemma_find_idx_props(self@, buffer_id);
                }
                Some(self.records[i])
            },
            None => None,
        }
    }

    /// Reclaims every lock whose holder has been silent for longer than
    /// `threshold` milliseconds as of `now`, clearing it unconditionally by
    /// timestamp, and returns how many were reclaimed.  Run periodically,
    /// not on the request path.
    pub fn sweep_expired(&mut self, now: u64, threshold: u64) -> (reclaimed: usize)
        requires
            old(self).wf(),
        ensures
            final(self).wf(),
            reclaimed == count_expired(old(self)@, now, threshold),
            forall|b: BufferId| #[trigger] final(self).rec_of(b) == (match old(self).rec_of(b) {
                Some(r) => if rec_expired(r, now, threshold) {
                    Some(cleared_record(b))
                } else {
                    Some(r)
                },
                None => None::<LockRecord>,
            }),
    {
        let ghost orig = self.records@;
        let n = self.records.len();
        let mut i: usize = 0;
        let mut reclaimed: usize = 0;
        while i < n
            invariant
                n == self.records.len(),
                orig.len() == n,
                i <= n,
                reclaimed <= i,
                reclaimed == count_expired_upto(orig, now, threshold, i as int),
                forall|j: int| i <= j < n ==> #[trigger] self.records@[j] == orig[j],
                forall|j: int| 0 <= j < i ==> #[trigger] self.records@[j] == (
                    if rec_expired(orig[j], now, threshold) {
                        cleared_record(orig[j].buffer_id)
                    } else {
                        orig[j]
                    }
                ),
            decreases n - i,
        {
            let rec = self.records[i];
            let stale = match rec.holder {
                Some(_) => now >= rec.last_heartbeat_at && now - rec.last_heartbeat_at > threshold,
                None => false,
            };
            if stale {
                self.records.set(i, LockRecord {
                    buffer_id: rec.buffer_id,
                    holder: None,
                    acquired_at: 0,
                    last_heartbeat_at: 0,
                });
                reclaimed += 1;
            }
            i += 1;
        }
        proof {
            assert forall|b: BufferId| #[trigger] lookup(self@, b) == (match lookup(orig, b) {
                Some(r) => if rec_expired(r, now, threshold) {
                    Some(cleared_record(b))
                } else {
                    Some(r)
                },
                None => None::<LockRecord>,
            }) by {
                lemma_find_idx_same_ids(orig, self@, b);
                lemma_find_idx_props(orig, b);
            }
        }
        reclaimed
    }

    /// After overwriting position `i` with a record of the same buffer, that
    /// buffer maps to the new record and every other buffer is untouched.
    proof fn lemma_after_update(self, prev: Seq<LockRecord>, i: int, buffer_id: BufferId)
        requires
            0 <= i < prev.len(),
            self@.len() == prev.len(),
            find_idx(prev, buffer_id) == Some(i),
            prev[i].buffer_id == buffer_id,
            self@ == prev.update(i, (LockRecord { buffer_id, ..self@[i] })),
        ensures
            find_idx(self@, buffer_id) == Some(i),
            self.rec_of(buffer_id) == Some(self@[i]),
            forall|b: BufferId| b != buffer_id ==> #[trigger] lookup(self@, b) == lookup(prev, b),
            forall|j: int| 0 <= j < prev.len() ==> (#[trigger] self@[j]).buffer_id == prev[j].buffer_id,
    {
        assert(forall|j: int| 0 <= j < prev.len()
            ==> (#[trigger] self@[j]).buffer_id == prev[j].buffer_id);
        lemma_find_idx_same_ids(prev, self@, buffer_id);
        assert forall|b: BufferId| b != buffer_id
            implies #[trigger] lookup(self@, b) == lookup(prev, b) by {
            lemma_find_idx_same_ids(prev, self@, b);
            lemma_find_idx_props(prev, b);
            match find_idx(prev, b) {
                Some(k) => {
                    assert(prev[k].buffer_id == b);
                    assert(k != i);
                },
                None => {},
            }
        }
    }
}

} // verus!
