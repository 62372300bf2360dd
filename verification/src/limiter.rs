//! Admission control: a per-user cap on concurrent connections.
//!
//! Independent of locking, but race-free for the same reason the lock store
//! is: admission is one atomic increment-with-cap, never a count read
//! followed by a separate increment.

use vstd::prelude::*;
use crate::store::UserId;

verus! {

/// How many connections one user currently has open.
#[derive(Clone, Copy, PartialEq, Eq, Structural, Debug)]
pub struct ConnEntry {
    pub user: UserId,
    pub connections: u64,
}

/// Position of the first entry for user `u`, if any.
pub open spec fn conn_find_idx(s: Seq<ConnEntry>, u: UserId) -> Option<int>
    decreases s.len(),
{
    if s.len() == 0 {
        None
    } else if s[0].user == u {
        Some(0)
    } else {
        match conn_find_idx(s.drop_first(), u) {
            Some(i) => Some(i + 1),
            None => None,
        }
    }
}

/// The connection count recorded for user `u`; a user with no entry has
/// none open.
pub open spec fn conn_count(s: Seq<ConnEntry>, u: UserId) -> u64 {
    match conn_find_idx(s, u) {
        Some(i) => s[i].connections,
        None => 0,
    }
}

/// `conn_find_idx` returns the position of the first entry of `u`, and
/// `None` exactly when no entry of `u` exists.
pub proof fn lemma_conn_find_idx_props(s: Seq<ConnEntry>, u: UserId)
    ensures
        match conn_find_idx(s, u) {
            Some(i) => {
                &&& 0 <= i < s.len()
                &&& s[i].user == u
                &&& forall|j: int| 0 <= j < i ==> (#[trigger] s[j]).user != u
            },
            None => forall|j: int| 0 <= j < s.len() ==> (#[trigger] s[j]).user != u,
        },
    decreases s.len(),
{
    if s.len() > 0 && s[0].user != u {
        lemma_conn_find_idx_props(s.drop_first(), u);
        match conn_find_idx(s.drop_first(), u) {
            Some(i) => {
                assert(conn_find_idx(s, u) == Some(i + 1));
                assert forall|j: int| 0 <= j < i + 1 implies (#[trigger] s[j]).user != u by {
                    if j >= 1 {
                        assert(s[j] == s.drop_first()[j - 1]);
                    }
                }
            },
            None => {
                assert forall|j: int| 0 <= j < s.len() implies (#[trigger] s[j]).user != u by {
                    if j >= 1 {
                        assert(s[j] == s.drop_first()[j - 1]);
                    }
                }
            },
        }
    }
}

/// A match at `i` with no earlier match pins `conn_find_idx` down to `i`.
pub proof fn lemma_conn_find_idx_at(s: Seq<ConnEntry>, u: UserId, i: int)
    requires
        0 <= i < s.len(),
        s[i].user == u,
        forall|j: int| 0 <= j < i ==> (#[trigger] s[j]).user != u,
    ensures
        conn_find_idx(s, u) == Some(i),
{
    lemma_conn_find_idx_props(s, u);
    match conn_find_idx(s, u) {
        Some(k) => {
            if k < i {
                assert(s[k].user != u);
            } else if k > i {
                assert(s[i].user != u);
            }
        },
        None => {
            assert(s[i].user != u);
        },
    }
}

/// Two entry lists with the same users in the same positions agree on where
/// each user's entry sits.
pub proof fn lemma_conn_find_idx_same_users(s1: Seq<ConnEntry>, s2: Seq<ConnEntry>, u: UserId)
    requires
        s1.len() == s2.len(),
        forall|j: int| 0 <= j < s1.len() ==> (#[trigger] s1[j]).user == (#[trigger] s2[j]).user,
    ensures
        conn_find_idx(s1, u) == conn_find_idx(s2, u),
    decreases s1.len(),
{
    if s1.len() > 0 {
        assert(forall|j: int| 0 <= j < s1.drop_first().len()
            ==> (#[trigger] s1.drop_first()[j]).user == s1[j + 1].user
                && (#[trigger] s2.drop_first()[j]).user == s2[j + 1].user);
        lemma_conn_find_idx_same_users(s1.drop_first(), s2.drop_first(), u);
    }
}

/// Appending an entry leaves every earlier position as it was and adds a
/// match only for the appended user.
pub proof fn lemma_conn_find_idx_push(s: Seq<ConnEntry>, e: ConnEntry, u: UserId)
    ensures
        conn_find_idx(s.push(e), u) == (match conn_find_idx(s, u) {
            Some(i) => Some(i),
            None => if e.user == u { Some(s.len() as int) } else { None::<int> },
        }),
    decreases s.len(),
{
    if s.len() == 0 {
        assert(s.push(e)[0] == e);
        assert(s.push(e).len() == 1);
        if e.user != u {
            assert(s.push(e).drop_first() =~= Seq::<ConnEntry>::empty());
            assert(conn_find_idx(Seq::<ConnEntry>::empty(), u) is None);
            assert(conn_find_idx(s.push(e), u) is None);
        }
    } else {
        assert(s.push(e).drop_first() =~= s.drop_first().push(e));
        assert(s.push(e)[0] == s[0]);
        lemma_conn_find_idx_push(s.drop_first(), e, u);
        if s[0].user != u {
            match conn_find_idx(s.drop_first(), u) {
                Some(i) => {
                    assert(conn_find_idx(s, u) == Some(i + 1));
                    assert(conn_find_idx(s.push(e), u) == Some(i + 1));
                },
                None => {
                    assert(conn_find_idx(s, u) is None);
                    assert(s.drop_first().len() as int + 1 == s.len() as int);
                },
            }
        }
    }
}

/// Tracks the active connection count of each user and refuses admission
/// beyond a fixed per-user cap.
pub struct ConnectionLimiter {
    max_per_user: u64,
    entries: Vec<ConnEntry>,
}

impl View for ConnectionLimiter {
    type V = Seq<ConnEntry>;

    closed spec fn view(&self) -> Seq<ConnEntry> {
        self.entries@
    }
}

impl ConnectionLimiter {
    /// The per-user cap this limiter was built with.
    pub closed spec fn cap(self) -> u64 {
        self.max_per_user
    }

    /// The active connection count of user `u`.
    pub open spec fn count_of(self, u: UserId) -> u64 {
        conn_count(self@, u)
    }

    /// Well-formedness: at most one entry per user, and no count above the
    /// cap.
    pub open spec fn wf(self) -> bool {
        &&& forall|i: int, j: int|
            0 <= i < j < self@.len() ==> (#[trigger] self@[i]).user != (#[trigger] self@[j]).user
        &&& forall|i: int|
            0 <= i < self@.len() ==> (#[trigger] self@[i]).connections <= self.cap()
    }

    /// A fresh limiter: nobody connected.
    pub fn new(max_per_user: u64) -> (l: ConnectionLimiter)
        ensures
            l.wf(),
            l.cap() == max_per_user,
            forall|u: UserId| #[trigger] l.count_of(u) == 0,
    {
        ConnectionLimiter { max_per_user, entries: Vec::new() }
    }

    /// Position of user `u`'s entry in the backing vector, if any.
    fn find_index(&self, u: UserId) -> (r: Option<usize>)
        ensures
            match r {
                Some(i) => conn_find_idx(self@, u) == Some(i as int),
                None => conn_find_idx(self@, u) is None,
            },
    {
        let n = self.entries.len();
        let mut i: usize = 0;
        while i < n
            invariant
                n == self.entries.len(),
                i <= n,
                forall|j: int| 0 <= j < i ==> (#[trigger] self.entries@[j]).user != u,
            decreases n - i,
        {
            if self.entries[i].user == u {
                proof {
                    lemma_conn_find_idx_at(self@, u, i as int);
                }
                return Some(i);
            }
            i += 1;
        }
        proof {
            lemma_conn_find_idx_props(self@, u);
            match conn_find_idx(self@, u) {
                Some(k) => {
                    assert(self@[k].user != u);
                },
                None => {},
            }
        }
        None
    }

    /// The active connection count of user `u`, as an executable read.
    pub fn active_connections(&self, u: UserId) -> (n: u64)
        ensures
            n == self.count_of(u),
    {
        match self.find_index(u) {
            Some(i) => {
                proof {
                    lemma_conn_find_idx_props(self@, u);
                }
                self.entries[i].connections
            },
            None => 0,
        }
    }

    /// The atomic admission: increments `u`'s connection count **iff** it is
    /// below the cap, in one indivisible step, and reports whether the user
    /// was admitted.
    pub fn try_admit(&mut self, u: UserId) -> (admitted: bool)
        requires
            old(self).wf(),
        ensures
            final(self).wf(),
            final(self).cap() == old(self).cap(),
            admitted == (old(self).count_of(u) < old(self).cap()),
            admitted ==> final(self).count_of(u) == old(self).count_of(u) + 1,
            !admitted ==> final(self)@ == old(self)@,
            forall|v: UserId| v != u ==> #[trigger] final(self).count_of(v) == old(self).count_of(v),
    {
        match self.find_index(u) {
            Some(i) => {
                proof {
                    lemma_conn_find_idx_props(self@, u);
                }
                let entry = self.entries[i];
                if entry.connections < self.max_per_user {
                    let ghost prev = self.entries@;
                    self.entries.set(i, ConnEntry { user: u, connections: entry.connections + 1 });
                    proof {
                        self.lemma_after_update(prev, i as int, u);
                    }
                    true
                } else {
                    false
                }
            },
            None => {
                let ghost prev = self.entries@;
                proof {
                    lemma_conn_find_idx_props(prev, u);
                }
                if self.max_per_user > 0 {
                    self.entries.push(ConnEntry { user: u, connections: 1 });
                    proof {
                        assert forall|v: UserId| v != u
                            implies #[trigger] conn_count(self@, v) == conn_count(prev, v) by {
                            lemma_conn_find_idx_push(prev, (ConnEntry { user: u, connections: 1 }), v);
                            lemma_conn_find_idx_props(prev, v);
                        }
                        lemma_conn_find_idx_push(prev, (ConnEntry { user: u, connections: 1 }), u);
                        assert(self@[prev.len() as int] == (ConnEntry { user: u, connections: 1 }));
                        assert forall|i: int, j: int| 0 <= i < j < self@.len()
                            implies (#[trigger] self@[i]).user != (#[trigger] self@[j]).user by {
                            if j == prev.len() as int {
                                assert(prev[i].user != u);
                            }
                        }
                    }
                    true
                } else {
                    false
                }
            },
        }
    }

    /// Decrements `u`'s connection count on disconnect; a user with no open
    /// connection stays at zero.
    pub fn release(&mut self, u: UserId)
        requires
            old(self).wf(),
        ensures
            final(self).wf(),
            final(self).cap() == old(self).cap(),
            final(self).count_of(u) == (if old(self).count_of(u) > 0 {
                old(self).count_of(u) - 1
            } else {
                0
            }),
            forall|v: UserId| v != u ==> #[trigger] final(self).count_of(v) == old(self).count_of(v),
    {
        match self.find_index(u) {
            Some(i) => {
                proof {
                    lemma_conn_find_idx_props(self@, u);
                }
                let entry = self.entries[i];
                if entry.connections > 0 {
                    let ghost prev = self.entries@;
                    self.entries.set(i, ConnEntry { user: u, connections: entry.connections - 1 });
                    proof {
                        self.lemma_after_update(prev, i as int, u);
                    }
                }
            },
            None => {},
        }
    }

    /// After overwriting position `i` with an entry of the same user, that
    /// user maps to the new entry and every other user is untouched.
    proof fn lemma_after_update(self, prev: Seq<ConnEntry>, i: int, u: UserId)
        requires
            0 <= i < prev.len(),
            self@.len() == prev.len(),
            conn_find_idx(prev, u) == Some(i),
            prev[i].user == u,
            self@ == prev.update(i, (ConnEntry { user: u, connections: self@[i].connections })),
        ensures
            conn_find_idx(self@, u) == Some(i),
            self.count_of(u) == self@[i].connections,
            forall|v: UserId| v != u ==> #[trigger] conn_count(self@, v) == conn_count(prev, v),
            forall|j: int| 0 <= j < prev.len() ==> (#[trigger] self@[j]).user == prev[j].user,
    {
        assert(forall|j: int| 0 <= j < prev.len() ==> (#[trigger] self@[j]).user == prev[j].user);
        lemma_conn_find_idx_same_users(prev, self@, u);
        assert forall|v: UserId| v != u
            implies #[trigger] conn_count(self@, v) == conn_count(prev, v) by {
            lemma_conn_find_idx_same_users(prev, self@, v);
            lemma_conn_find_idx_props(prev, v);
            match conn_find_idx(prev, v) {
                Some(k) => {
                    assert(prev[k].user == v);
                    assert(k != i);
                },
                None => {},
            }
        }
    }
}

} // verus!
