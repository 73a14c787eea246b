//! The iteration bookkeeping of a whole run: a fixed number of fully
//! independent provision, compare, teardown cycles, aborted as a whole on the
//! first failure.
//!
//! The runner holds at most one live handle's loop device at a time, and a new
//! iteration can only begin once the previous one has been released: loop
//! device acquisition is strictly release-before-next-acquire, so no two
//! iterations ever hold a device simultaneously. The caller drives the runner,
//! reporting each acquisition, each completed teardown, and any fatal failure.

use vstd::prelude::*;

verus! {

/// The bookkeeping of one run of sequential iterations.
#[derive(Debug)]
pub struct TestRunner {
    /// How many iterations the run makes in all.
    pub total: u64,
    /// How many iterations have completed, teardown included.
    pub completed: u64,
    /// The loop device the current iteration holds, if one is provisioned.
    pub live: Option<Vec<char>>,
    /// Whether the run was aborted by a fatal failure.
    pub aborted: bool,
}

impl TestRunner {
    /// The runner's invariant: no more iterations completed than requested,
    /// and a device is held only inside an unfinished, unaborted iteration.
    pub open spec fn inv(self) -> bool {
        &&& self.completed <= self.total
        &&& self.live is Some ==> (self.completed < self.total && !self.aborted)
    }

    /// The loop devices the runner currently holds.
    pub open spec fn held(self) -> Set<Seq<char>> {
        match self.live {
            Some(dev) => Set::empty().insert(dev@),
            None => Set::empty(),
        }
    }

    /// Starts a run of `total` iterations.
    pub fn new(total: u64) -> (r: Self)
        ensures
            r.inv(),
            r.total == total,
            r.completed == 0,
            r.live is None,
            !r.aborted,
    {
        TestRunner { total, completed: 0, live: None, aborted: false }
    }

    /// Whether another iteration must run: the run is not aborted, nothing is
    /// held, and iterations remain.
    pub fn should_run(&self) -> (r: bool)
        ensures
            r == (!self.aborted && self.live is None && self.completed < self.total),
    {
        !self.aborted && self.live.is_none() && self.completed < self.total
    }

    /// Records that the current iteration provisioned a handle on `dev`.
    /// The previous iteration must have released its device first: acquisition
    /// is strictly release-before-next-acquire.
    pub fn acquired(&mut self, dev: Vec<char>)
        requires
            old(self).inv(),
            old(self).live is None,
            !old(self).aborted,
            old(self).completed < old(self).total,
        ensures
            final(self).inv(),
            final(self).live matches Some(d) && d@ == dev@,
            final(self).held() == Set::empty().insert(dev@),
            final(self).completed == old(self).completed,
            final(self).total == old(self).total,
            !final(self).aborted,
    {
        self.live = Some(dev);
    }

    /// Records that the current iteration's teardown finished cleanly: the
    /// held device is released and the iteration counts as completed.
    pub fn released(&mut self)
        requires
            old(self).inv(),
            old(self).live is Some,
        ensures
            final(self).inv(),
            final(self).live is None,
            final(self).held() == Set::<Seq<char>>::empty(),
            final(self).completed == old(self).completed + 1,
            final(self).total == old(self).total,
            final(self).aborted == old(self).aborted,
    {
        self.live = None;
        self.completed = self.completed + 1;
    }

    /// Records a fatal failure — a provisioning error, a detected mismatch or
    /// a teardown failure: the run stops here. A device still held stays
    /// recorded as held; the host may be left leaked, which is exactly what
    /// the abort reports.
    pub fn abort(&mut self)
        requires
            old(self).inv(),
        ensures
            final(self).live == old(self).live,
            final(self).completed == old(self).completed,
            final(self).total == old(self).total,
            final(self).aborted,
    {
        self.aborted = true;
    }

    /// Whether the whole run completed: every iteration ran and none aborted.
    pub fn finished(&self) -> (r: bool)
        ensures
            r == (!self.aborted && self.live is None && self.completed == self.total),
    {
        !self.aborted && self.live.is_none() && self.completed == self.total
    }
}

/// At every runner state at most one loop device is held, and any two held
/// devices are the same: since `acquired` further requires the previous hold
/// to be released, no two iterations of a run ever hold a loop device
/// simultaneously, the same or different.
pub proof fn lemma_at_most_one_device_held(r: TestRunner)
    ensures
        r.held().len() <= 1,
        forall|d1: Seq<char>, d2: Seq<char>|
            r.held().contains(d1) && r.held().contains(d2) ==> d1 == d2,
{
    match r.live {
        Some(dev) => {
            assert(r.held() =~= Set::empty().insert(dev@));
            assert(r.held().len() == 1) by {
                vstd::set_lib::lemma_set_empty_equivalency_len(
                    Set::<Seq<char>>::empty(),
                );
            }
        },
        None => {
            assert(r.held() =~= Set::<Seq<char>>::empty());
        },
    }
}

} // verus!
