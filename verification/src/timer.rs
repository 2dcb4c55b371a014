//! A repeating timer with nothing hidden: the time gathered so far and the
//! period after which it fires.

use vstd::prelude::*;

verus! {

/// A repeating timer. Times are in nanoseconds.
#[derive(Clone, Copy, Debug)]
pub struct FrameTimer {
    elapsed: u64,
    period: u64,
}

/// What a [`FrameTimer`] holds.
pub struct FrameTimerView {
    /// Time gathered since the timer last fired.
    pub elapsed: nat,
    /// Time after which the timer fires.
    pub period: nat,
}

impl FrameTimerView {
    /// The gathered time never exceeds the period.
    pub open spec fn valid(self) -> bool {
        self.elapsed <= self.period
    }

    /// The timer fires in a tick of `delta` when the gathered time reaches
    /// the period.
    pub open spec fn fires(self, delta: nat) -> bool {
        self.elapsed + delta >= self.period
    }

    /// The timer after a tick of `delta`: when it fires it keeps what went
    /// beyond the last whole period.
    pub open spec fn tick(self, delta: nat) -> FrameTimerView {
        if !self.fires(delta) {
            FrameTimerView { elapsed: self.elapsed + delta, period: self.period }
        } else if self.period == 0 {
            FrameTimerView { elapsed: 0, period: self.period }
        } else {
            FrameTimerView {
                elapsed: (self.elapsed + delta) % self.period,
                period: self.period,
            }
        }
    }

    /// The timer made to fire at the next tick, however short.
    pub open spec fn expire(self) -> FrameTimerView {
        FrameTimerView { elapsed: self.period, period: self.period }
    }
}

impl View for FrameTimer {
    type V = FrameTimerView;

    closed spec fn view(&self) -> FrameTimerView {
        FrameTimerView { elapsed: self.elapsed as nat, period: self.period as nat }
    }
}

impl FrameTimer {
    /// Holds of every timer there is.
    #[verifier::type_invariant]
    pub open spec fn inv(self) -> bool {
        self@.valid()
    }

    /// A timer that has gathered nothing yet.
    pub fn new(period: u64) -> (timer: FrameTimer)
        ensures
            timer@.elapsed == 0,
            timer@.period == period,
            timer@.valid(),
    {
        FrameTimer { elapsed: 0, period }
    }

    /// Time gathered since the timer last fired.
    pub fn elapsed(&self) -> (elapsed: u64)
        ensures
            elapsed == self@.elapsed,
    {
        self.elapsed
    }

    /// Time after which the timer fires.
    pub fn period(&self) -> (period: u64)
        ensures
            period == self@.period,
    {
        self.period
    }

    /// Makes the timer fire at the next tick.
    pub fn expire(&mut self)
        ensures
            final(self)@ == old(self)@.expire(),
            final(self)@.valid(),
    {
        self.elapsed = self.period;
    }

    /// Lets `delta` pass and tells whether the timer fired.
    pub fn tick(&mut self, delta: u64) -> (fired: bool)
        ensures
            fired == old(self)@.fires(delta as nat),
            final(self)@ == old(self)@.tick(delta as nat),
            final(self)@.valid(),
    {
        proof {
            use_type_invariant(&*self);
        }
        let total: u128 = self.elapsed as u128 + delta as u128;
        let period: u128 = self.period as u128;
        if total < period {
            self.elapsed = total as u64;
            false
        } else if self.period == 0 {
            self.elapsed = 0;
            true
        } else {
            let rest: u128 = total % period;
            self.elapsed = rest as u64;
            true
        }
    }
}

} // verus!
