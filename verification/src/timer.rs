//! The quiescence timer: between the first-traffic signal and the
//! one-time enable-sharding signal lies a fixed grace interval, so that
//! steering is never altered in reaction to a single unrepresentative
//! packet.
//!
//! Time is a caller-supplied monotone clock reading (for instance
//! milliseconds since startup); the timer itself never reads a clock.

use vstd::prelude::*;

verus! {

#[derive(Clone, Copy, Debug, PartialEq, Eq, Structural)]
pub enum TimerState {
    /// No first-traffic signal has arrived yet.
    AwaitingTraffic,
    /// First traffic was signaled at time `since`; the grace interval
    /// is running.
    Waiting { since: u64 },
    /// The one-time enable signal was emitted at time `at`.
    Fired { since: u64, at: u64 },
}

pub struct QuiescenceTimer {
    pub grace: u64,
    pub state: TimerState,
}

impl QuiescenceTimer {
    /// The timer's invariant: while the grace interval runs its end
    /// fits in the clock's range, and the enable signal was never
    /// emitted earlier than the first-traffic time plus the grace
    /// interval.
    pub open spec fn wf(self) -> bool {
        &&& (self.state matches TimerState::Waiting { since } ==> since + self.grace
            <= u64::MAX)
        &&& (self.state matches TimerState::Fired { since, at } ==> at >= since + self.grace)
    }

    /// A fresh timer with the given grace interval, awaiting first
    /// traffic.
    pub fn new(grace: u64) -> (t: Self)
        ensures
            t.wf(),
            t.grace == grace,
            t.state == TimerState::AwaitingTraffic,
    {
        QuiescenceTimer { grace, state: TimerState::AwaitingTraffic }
    }

    /// Records the arrival of the single-use first-traffic signal at
    /// time `now` and starts the grace interval.
    pub fn on_first_traffic(&mut self, now: u64)
        requires
            old(self).wf(),
            old(self).state == TimerState::AwaitingTraffic,
            now + old(self).grace <= u64::MAX,
        ensures
            final(self).wf(),
            final(self).grace == old(self).grace,
            final(self).state == (TimerState::Waiting { since: now }),
    {
        self.state = TimerState::Waiting { since: now };
    }

    /// Polls the timer at time `now`. Returns true exactly when the
    /// grace interval that started at the first-traffic time has
    /// elapsed and the enable signal has not been emitted before: the
    /// signal is single-use, so at most one poll ever returns true.
    pub fn poll(&mut self, now: u64) -> (fire: bool)
        requires
            old(self).wf(),
        ensures
            final(self).wf(),
            final(self).grace == old(self).grace,
            fire <==> (old(self).state matches TimerState::Waiting { since } && now >= since
                + old(self).grace),
            fire ==> (old(self).state matches TimerState::Waiting { since } && final(self).state
                == (TimerState::Fired { since, at: now })),
            !fire ==> *final(self) == *old(self),
    {
        match self.state {
            TimerState::Waiting { since } => {
                // since + grace fits in u64 by the invariant.
                if now >= since + self.grace {
                    self.state = TimerState::Fired { since, at: now };
                    true
                } else {
                    false
                }
            },
            _ => false,
        }
    }
}

/// Law: the enable signal never fires earlier than the first-traffic
/// time plus the grace interval. Whenever a timer has fired, the
/// emission time `at` is at least `since + grace`.
pub proof fn lemma_no_early_enable(t: QuiescenceTimer, since: u64, at: u64)
    requires
        t.wf(),
        t.state == (TimerState::Fired { since, at }),
    ensures
        at >= since + t.grace,
{
}

} // verus!
