//! Latency and initiation-interval bookkeeping, and the readiness test of a
//! broadcast.
use vstd::prelude::*;

verus! {

/// `a + b`, held at `u64::MAX`: the logical clock never wraps.
pub open spec fn clock_add(a: u64, b: u64) -> u64 {
    if a + b > u64::MAX {
        u64::MAX
    } else {
        (a + b) as u64
    }
}

/// One value produced by an actor, visible to its consumers from `ready_time` on.
#[derive(Clone, Copy, Debug, PartialEq, Eq)]
pub struct Emission<A> {
    pub value: A,
    pub ready_time: u64,
}

/// The latency and initiation-interval bookkeeping of one actor: when it may
/// issue next, and when what it issues becomes visible.
#[derive(Clone, Copy, Debug, PartialEq, Eq, Structural)]
pub struct Pacer {
    pub latency: u64,
    pub init_interval: u64,
    /// The earliest logical time of the next issue.
    pub next_issue: u64,
}

impl Pacer {
    /// The time of an issue requested at `now`: not before the initiation interval has passed.
    pub open spec fn issue_time(self, now: u64) -> u64 {
        if now >= self.next_issue {
            now
        } else {
            self.next_issue
        }
    }

    /// When a value issued at `now` becomes visible.
    pub open spec fn ready_time(self, now: u64) -> u64 {
        clock_add(self.issue_time(now), self.latency)
    }

    /// The bookkeeping after an issue requested at `now`.
    pub open spec fn issued(self, now: u64) -> Pacer {
        Pacer { next_issue: clock_add(self.issue_time(now), self.init_interval), ..self }
    }

    pub fn new(latency: u64, init_interval: u64) -> (p: Pacer)
        ensures
            p == (Pacer { latency, init_interval, next_issue: 0 }),
    {
        Pacer { latency, init_interval, next_issue: 0 }
    }

    /// Records an issue requested at `now`; returns when its result becomes visible.
    pub fn issue(&mut self, now: u64) -> (ready: u64)
        ensures
            ready == old(self).ready_time(now),
            *final(self) == old(self).issued(now),
    {
        let at = if now >= self.next_issue {
            now
        } else {
            self.next_issue
        };
        self.next_issue = at.saturating_add(self.init_interval);
        at.saturating_add(self.latency)
    }
}

/// Gather-then-commit for a broadcast: one value may be committed to the
/// targets only when every one of them has room for it.
pub fn all_ready(ready: &[bool]) -> (r: bool)
    ensures
        r == (forall|i: int| 0 <= i < ready.len() ==> ready[i]),
{
    let mut k: usize = 0;
    while k < ready.len()
        invariant
            k <= ready.len(),
            forall|i: int| 0 <= i < k ==> ready[i],
        decreases ready.len() - k,
    {
        if !ready[k] {
            return false;
        }
        k = k + 1;
    }
    true
}

} // verus!
