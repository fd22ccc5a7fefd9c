//! Output activity and quiescence: when the terminal has been quiet for
//! long enough.
//!
//! Times are readings of one monotonic clock, in nanoseconds.

use vstd::prelude::*;

verus! {

/// How long the terminal has been quiet at `now`, if the last activity was
/// at `last`: nothing for a reading that lies before the activity.
pub open spec fn quiet_for(last: u64, now: u64) -> int {
    if now >= last {
        now - last
    } else {
        0
    }
}

/// The time of the last output activity.
#[derive(Debug, Clone, Copy, PartialEq, Eq)]
pub struct ActivityTracker {
    last: u64,
}

/// What someone who waits for quiescence does next.
#[derive(Debug, Clone, Copy, PartialEq, Eq, Structural)]
pub enum Quiescence {
    /// The terminal has been quiet for the whole timeout: stop waiting.
    Quiet,
    /// Sleep this long, or until the next activity, then look again.
    Wait(u64),
}

/// Why someone who waits for quiescence woke up.
#[derive(Debug, Clone, Copy, PartialEq, Eq, Structural)]
pub enum Wake {
    /// The sleep ran its course.
    Slept,
    /// There was activity meanwhile.
    Touched,
    /// The tracker is gone; nobody will report activity any more.
    Closed,
}

impl ActivityTracker {
    /// The time of the last activity.
    pub closed spec fn last(&self) -> u64 {
        self.last
    }

    /// What a waiter with the given timeout does at `now`: it is done once
    /// the quiet has lasted the whole timeout, and else waits for what is
    /// missing.
    pub open spec fn decision(&self, now: u64, timeout: u64) -> Quiescence {
        if quiet_for(self.last(), now) >= timeout {
            Quiescence::Quiet
        } else {
            Quiescence::Wait((timeout - quiet_for(self.last(), now)) as u64)
        }
    }

    /// A tracker whose last activity is now.
    pub fn new(now: u64) -> (tracker: ActivityTracker)
        ensures
            tracker.last() == now,
    {
        ActivityTracker { last: now }
    }

    /// The time of the last activity.
    pub fn last_activity(&self) -> (last: u64)
        ensures
            last == self.last(),
    {
        self.last
    }

    /// Records activity at `now`. The recorded time never moves backwards.
    pub fn touch(&mut self, now: u64)
        ensures
            final(self).last() == if now >= old(self).last() {
                now
            } else {
                old(self).last()
            },
            final(self).last() >= old(self).last(),
            final(self).last() >= now,
    {
        if now >= self.last {
            self.last = now;
        }
    }

    /// What a waiter with the given timeout does at `now`.
    pub fn check(&self, now: u64, timeout: u64) -> (next: Quiescence)
        ensures
            next == self.decision(now, timeout),
            next == Quiescence::Quiet <==> quiet_for(self.last(), now) >= timeout,
            next is Wait ==> 0 < next->Wait_0 <= timeout && quiet_for(self.last(), now)
                + next->Wait_0 == timeout,
    {
        let elapsed = if now >= self.last {
            now - self.last
        } else {
            0
        };
        if elapsed >= timeout {
            Quiescence::Quiet
        } else {
            Quiescence::Wait(timeout - elapsed)
        }
    }

    /// What a waiter does when it wakes: if the tracker is gone it stops,
    /// and else it looks at the clock again, whether it slept its time or
    /// was woken by activity.
    pub fn on_wake(&self, wake: Wake, now: u64, timeout: u64) -> (next: Quiescence)
        ensures
            wake == Wake::Closed ==> next == Quiescence::Quiet,
            wake != Wake::Closed ==> next == self.decision(now, timeout),
    {
        match wake {
            Wake::Closed => Quiescence::Quiet,
            Wake::Slept => self.check(now, timeout),
            Wake::Touched => self.check(now, timeout),
        }
    }
}

/// A waiter is never done before the timeout has passed since the last
/// activity, and a waiter that sleeps as long as it is told is done when it
/// wakes, unless there was activity meanwhile.
pub proof fn lemma_quiescence_is_timely(tracker: ActivityTracker, now: u64, timeout: u64)
    ensures
        tracker.decision(now, timeout) == Quiescence::Quiet ==> now >= tracker.last() + timeout
            || timeout == 0,
        tracker.decision(now, timeout) is Wait && now >= tracker.last() ==> now
            + tracker.decision(now, timeout)->Wait_0 == tracker.last() + timeout,
{
}

/// Activity during a wait extends it: a waiter that looks at the clock
/// after activity at `touched` is not done before the whole timeout has
/// passed since then.
pub proof fn lemma_touch_extends_wait(
    before: ActivityTracker,
    after: ActivityTracker,
    touched: u64,
    now: u64,
    timeout: u64,
)
    requires
        after.last() == if touched >= before.last() {
            touched
        } else {
            before.last()
        },
        timeout > 0,
    ensures
        after.decision(now, timeout) == Quiescence::Quiet ==> now >= touched + timeout,
{
}

} // verus!
