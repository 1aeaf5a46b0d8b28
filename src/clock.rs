use vstd::prelude::*;
use vstd::rwlock::{RwLock, RwLockPredicate};

verus! {

/// The instant of the last observed request, in ticks of a monotonic clock.
pub struct ActivityClock {
    pub last: u64,
}

impl View for ActivityClock {
    type V = u64;

    open spec fn view(&self) -> u64 {
        self.last
    }
}

/// The clock after `record_activity(now)`: the stored instant is overwritten.
pub open spec fn recorded(c: ActivityClock, now: u64) -> ActivityClock {
    ActivityClock { last: now }
}

/// The clock after recording each instant of `ts` in order.
pub open spec fn replay(c: ActivityClock, ts: Seq<u64>) -> ActivityClock
    decreases ts.len(),
{
    if ts.len() == 0 {
        c
    } else {
        recorded(replay(c, ts.drop_last()), ts.last())
    }
}

/// Strictly increasing instants.
pub open spec fn strictly_increasing(ts: Seq<u64>) -> bool {
    forall|i: int, j: int| 0 <= i < j < ts.len() ==> ts[i] < ts[j]
}

impl ActivityClock {
    /// A clock whose last activity is the instant it was created at.
    pub fn new(now: u64) -> (c: Self)
        ensures
            c@ == now,
    {
        ActivityClock { last: now }
    }

    /// Overwrites the stored instant with `now`, whatever it held.
    pub fn record_activity(&mut self, now: u64)
        ensures
            *final(self) == recorded(*old(self), now),
            final(self)@ == now,
    {
        self.last = now;
    }

    /// The most recently stored instant.
    pub fn last_activity(&self) -> (r: u64)
        ensures
            r == self@,
    {
        self.last
    }
}

/// Recording a sequence of activities leaves the clock at the last of them:
/// after writes at strictly increasing instants t1 < ... < tn, the observed
/// last activity is at least tn (in fact it is tn).
pub proof fn lemma_monotonic_recency(c: ActivityClock, ts: Seq<u64>)
    requires
        ts.len() > 0,
        strictly_increasing(ts),
    ensures
        replay(c, ts)@ >= ts.last(),
        replay(c, ts)@ == ts.last(),
{
}

/// Writes serialized in any order leave one of the written instants behind,
/// never a value mixed from several: the clock ends at the instant of the
/// write that came last.
pub proof fn lemma_last_writer_wins(c: ActivityClock, ts: Seq<u64>)
    requires
        ts.len() > 0,
    ensures
        ts.contains(replay(c, ts)@),
        replay(c, ts)@ == ts[ts.len() - 1],
{
    assert(ts[ts.len() - 1] == replay(c, ts)@);
}

/// Every value the shared cell holds is an instant at or after `origin`.
pub struct NotBefore {
    pub origin: u64,
}

impl RwLockPredicate<ActivityClock> for NotBefore {
    open spec fn inv(self, c: ActivityClock) -> bool {
        c@ >= self.origin
    }
}

/// The activity clock shared between every request path and the monitor.
/// Each access holds the lock for a single read or a single write, so no torn
/// value is ever observed, and no access spans a handler or a sleep.
pub struct LastActivityTime {
    cell: RwLock<ActivityClock, NotBefore>,
    origin: u64,
}

impl LastActivityTime {
    /// The instant the cell was created at; no stored instant is earlier.
    pub closed spec fn origin(&self) -> u64 {
        self.origin
    }

    pub closed spec fn wf(&self) -> bool {
        self.cell.pred() == (NotBefore { origin: self.origin })
    }

    /// A cell created at `now`, holding `now` as its last activity.
    pub fn new(now: u64) -> (s: Self)
        ensures
            s.wf(),
            s.origin() == now,
    {
        let cell = RwLock::new(ActivityClock::new(now), Ghost(NotBefore { origin: now }));
        LastActivityTime { cell, origin: now }
    }

    /// Overwrites the shared instant with `now`. Instants come from a
    /// monotonic clock, so none precedes the cell's creation.
    pub fn record_activity(&self, now: u64)
        requires
            self.wf(),
            now >= self.origin(),
    {
        let (mut clock, handle) = self.cell.acquire_write();
        clock.record_activity(now);
        handle.release_write(clock);
    }

    /// The instant stored by some completed write, or the creation instant.
    pub fn last_activity(&self) -> (r: u64)
        requires
            self.wf(),
        ensures
            r >= self.origin(),
    {
        let handle = self.cell.acquire_read();
        let r = handle.borrow().last_activity();
        handle.release_read();
        r
    }
}

} // verus!
