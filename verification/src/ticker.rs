//! The countdown ticker that can end a session.

use vstd::prelude::*;

verus! {

/// Abstract state of the countdown: whether it is armed, the duration it
/// was armed with, and how much of that duration has passed.
#[derive(Debug, Copy, Clone, PartialEq, Eq, Structural)]
pub struct TickerView {
    pub armed: bool,
    pub total_millis: u32,
    pub elapsed_millis: u32,
}

impl TickerView {
    /// A disarmed countdown with its progress cleared.
    pub open spec fn disarmed() -> TickerView {
        TickerView { armed: false, total_millis: 0, elapsed_millis: 0 }
    }

    /// A countdown freshly armed for `total_millis`.
    pub open spec fn armed_for(total_millis: u32) -> TickerView {
        TickerView { armed: true, total_millis, elapsed_millis: 0 }
    }

    /// While armed, the duration is positive and not yet used up.
    pub open spec fn wf(self) -> bool {
        self.armed ==> 0 < self.total_millis && self.elapsed_millis < self.total_millis
    }
}

/// A cancellable countdown. The shell reports the passage of time in
/// fixed steps; once the time armed for has passed, the countdown
/// expires, exactly once, and disarms itself. It must be re-armed
/// explicitly to run again, and cancelling always clears the progress,
/// so a stale near-expiry countdown cannot fire after a restart.
pub struct TimeoutTicker {
    armed: bool,
    total_millis: u32,
    elapsed_millis: u32,
}

impl View for TimeoutTicker {
    type V = TickerView;

    closed spec fn view(&self) -> TickerView {
        TickerView {
            armed: self.armed,
            total_millis: self.total_millis,
            elapsed_millis: self.elapsed_millis,
        }
    }
}

impl TimeoutTicker {
    /// A countdown that starts disarmed.
    pub fn new() -> (ticker: TimeoutTicker)
        ensures
            ticker@ == TickerView::disarmed(),
            ticker@.wf(),
    {
        TimeoutTicker { armed: false, total_millis: 0, elapsed_millis: 0 }
    }

    /// Arms the countdown for `total_millis`, dropping whatever countdown
    /// was running before.
    pub fn arm(&mut self, total_millis: u32)
        requires
            total_millis > 0,
        ensures
            final(self)@ == TickerView::armed_for(total_millis),
            final(self)@.wf(),
    {
        self.armed = true;
        self.total_millis = total_millis;
        self.elapsed_millis = 0;
    }

    /// Disarms the countdown and clears its progress.
    pub fn cancel(&mut self)
        ensures
            final(self)@ == TickerView::disarmed(),
            final(self)@.wf(),
    {
        self.armed = false;
        self.total_millis = 0;
        self.elapsed_millis = 0;
    }

    /// Advances an armed countdown by `step_millis` and reports whether
    /// it expired; an expired countdown disarms itself. A disarmed
    /// countdown ignores the tick.
    pub fn tick(&mut self, step_millis: u32) -> (expired: bool)
        requires
            old(self)@.wf(),
        ensures
            final(self)@.wf(),
            !old(self)@.armed ==> !expired && final(self)@ == old(self)@,
            old(self)@.armed ==> {
                &&& expired <==> old(self)@.elapsed_millis + step_millis
                    >= old(self)@.total_millis
                &&& expired ==> final(self)@ == TickerView::disarmed()
                &&& !expired ==> final(self)@ == (TickerView {
                    armed: true,
                    total_millis: old(self)@.total_millis,
                    elapsed_millis: (old(self)@.elapsed_millis + step_millis) as u32,
                })
            },
    {
        if !self.armed {
            return false;
        }
        if step_millis >= self.total_millis - self.elapsed_millis {
            self.cancel();
            true
        } else {
            self.elapsed_millis = self.elapsed_millis + step_millis;
            false
        }
    }

    /// Whether the countdown is armed.
    pub fn is_armed(&self) -> (armed: bool)
        ensures
            armed == self@.armed,
    {
        self.armed
    }

    /// The duration the countdown was armed for, in milliseconds.
    pub fn total_millis(&self) -> (total: u32)
        ensures
            total == self@.total_millis,
    {
        self.total_millis
    }

    /// How much of the armed duration has passed, in milliseconds.
    pub fn elapsed_millis(&self) -> (elapsed: u32)
        ensures
            elapsed == self@.elapsed_millis,
    {
        self.elapsed_millis
    }
}

} // verus!
