//! A countdown timer in whole milliseconds, advanced once per tick.
use vstd::prelude::*;

verus! {

/// A timer that finishes once `elapsed_millis` reaches `duration_millis`. A repeating timer
/// starts over, keeping the excess; a one-shot timer stays finished until it is reset.
#[derive(Clone, Copy, Debug, PartialEq, Eq, Hash, Structural)]
pub struct Timer {
    pub duration_millis: u64,
    pub elapsed_millis: u64,
    pub repeating: bool,
    /// The timer has reached its duration (for a repeating timer: during the last tick).
    pub finished: bool,
    /// The timer reached its duration during the last tick.
    pub just_finished: bool,
}

/// `a + b`, held at `u64::MAX`.
pub open spec fn saturating_sum(a: u64, b: u64) -> u64 {
    if a + b > u64::MAX {
        u64::MAX
    } else {
        (a + b) as u64
    }
}

impl Timer {
    /// A timer of `duration_millis` that has not started running.
    pub open spec fn new_spec(duration_millis: u64, repeating: bool) -> Timer {
        Timer { duration_millis, elapsed_millis: 0, repeating, finished: false, just_finished: false }
    }

    pub fn new(duration_millis: u64, repeating: bool) -> (r: Timer)
        ensures
            r == Timer::new_spec(duration_millis, repeating),
    {
        Timer { duration_millis, elapsed_millis: 0, repeating, finished: false, just_finished: false }
    }

    /// The timer after `delta_millis` more milliseconds.
    pub open spec fn ticked(self, delta_millis: u64) -> Timer {
        if !self.repeating && self.finished {
            Timer { just_finished: false, ..self }
        } else {
            let e = saturating_sum(self.elapsed_millis, delta_millis);
            if e >= self.duration_millis {
                let rest = if !self.repeating {
                    self.duration_millis
                } else if self.duration_millis > 0 {
                    (e % self.duration_millis) as u64
                } else {
                    0
                };
                Timer { elapsed_millis: rest, finished: true, just_finished: true, ..self }
            } else {
                Timer { elapsed_millis: e, finished: false, just_finished: false, ..self }
            }
        }
    }

    /// Advances the timer by `delta_millis`.
    pub fn tick(&mut self, delta_millis: u64)
        ensures
            *final(self) == old(self).ticked(delta_millis),
    {
        if !self.repeating && self.finished {
            self.just_finished = false;
            return;
        }
        let e = self.elapsed_millis.saturating_add(delta_millis);
        if e >= self.duration_millis {
            let rest = if !self.repeating {
                self.duration_millis
            } else if self.duration_millis > 0 {
                e % self.duration_millis
            } else {
                0
            };
            self.elapsed_millis = rest;
            self.finished = true;
            self.just_finished = true;
        } else {
            self.elapsed_millis = e;
            self.finished = false;
            self.just_finished = false;
        }
    }

    /// Starts the timer over.
    pub fn reset(&mut self)
        ensures
            *final(self) == (Timer { elapsed_millis: 0, finished: false, just_finished: false, ..*old(self) }),
    {
        self.elapsed_millis = 0;
        self.finished = false;
        self.just_finished = false;
    }

    pub fn set_duration(&mut self, duration_millis: u64)
        ensures
            *final(self) == (Timer { duration_millis, ..*old(self) }),
    {
        self.duration_millis = duration_millis;
    }

    pub fn finished(&self) -> (r: bool)
        ensures
            r == self.finished,
    {
        self.finished
    }

    pub fn just_finished(&self) -> (r: bool)
        ensures
            r == self.just_finished,
    {
        self.just_finished
    }
}

} // verus!
