//! A model of the lock-based election.
//!
//! Leadership rests on one platform primitive: an exclusive lock on a
//! well-known, origin-wide resource, granted to at most one requester
//! at a time and, in this design, never released while its holder
//! lives.  The granted context's callback sets that context's
//! leadership flag — the step `WorkerState::on_lock_granted` performs —
//! and holds the lock for the rest of the process lifetime.  This
//! module states what that discipline buys: however many contexts
//! start concurrently, exactly one of them becomes leader while the
//! lock is held.

use vstd::prelude::*;

verus! {

/// The origin-wide election state: one leadership flag per context and
/// the exclusive lock, held by at most one context.
pub struct ElectionModel {
    pub flags: Seq<bool>,
    pub holder: Option<int>,
}

impl ElectionModel {
    /// Startup: every context is a follower and the lock is free.
    pub open spec fn init(n: nat) -> ElectionModel {
        ElectionModel { flags: Seq::new(n, |i: int| false), holder: Option::None }
    }

    /// The platform grants the free lock to one waiting context, whose
    /// success callback sets that context's leadership flag.
    pub open spec fn grant(self, i: int) -> ElectionModel
        recommends
            self.holder is None,
            0 <= i < self.flags.len(),
    {
        ElectionModel { flags: self.flags.update(i, true), holder: Option::Some(i) }
    }

    /// A context's flag is set only by the grant callback, so a set
    /// flag means that context holds the lock.
    pub open spec fn inv(self) -> bool {
        forall|i: int| 0 <= i < self.flags.len() && self.flags[i] ==> self.holder == Option::Some(i)
    }

    /// The contexts whose leadership flag is set.
    pub open spec fn leaders(self) -> Set<int> {
        Set::new(|i: int| 0 <= i < self.flags.len() && self.flags[i])
    }
}

/// At startup the invariant holds and nobody leads.
pub proof fn lemma_init(n: nat)
    ensures
        ElectionModel::init(n).inv(),
        ElectionModel::init(n).leaders() =~= Set::<int>::empty(),
{
}

/// Granting the free lock keeps the invariant: the new leader is the
/// holder, and no other flag was set before the grant.
pub proof fn lemma_grant_preserves_inv(s: ElectionModel, i: int)
    requires
        s.inv(),
        s.holder is None,
        0 <= i < s.flags.len(),
    ensures
        s.grant(i).inv(),
{
}

/// Mutual exclusion: while the lock is held, two contexts with a set
/// leadership flag are the same context.
pub proof fn lemma_mutual_exclusion(s: ElectionModel, i: int, j: int)
    requires
        s.inv(),
        0 <= i < s.flags.len(),
        s.flags[i],
        0 <= j < s.flags.len(),
        s.flags[j],
    ensures
        i == j,
{
}

/// For any set of N concurrently starting contexts, N >= 1, the single
/// grant of the exclusive lock makes exactly one context's leadership
/// flag true while the lock is held.
pub proof fn lemma_exactly_one_leader(n: nat, i: int)
    requires
        0 <= i < n,
    ensures
        ElectionModel::init(n).grant(i).inv(),
        ElectionModel::init(n).grant(i).leaders() =~= set![i],
{
    lemma_init(n);
    lemma_grant_preserves_inv(ElectionModel::init(n), i);
}

} // verus!
