//! A frame timer counted in whole milliseconds. Widgets tick it with the
//! frame delta and ask whether it has run out. A repeating timer wraps its
//! elapsed time around the duration each time it runs out; a one-shot timer
//! stops at the duration and stays finished.

use vstd::prelude::*;

verus! {

pub struct Timer {
    pub duration_ms: u64,
    pub elapsed_ms: u64,
    pub repeating: bool,
    pub just_finished: bool,
}

impl Timer {
    /// A repeating timer never holds a full period of elapsed time, so its
    /// duration must be positive; a one-shot timer caps its elapsed time at
    /// the duration.
    pub open spec fn wf(self) -> bool {
        if self.repeating {
            self.duration_ms > 0 && self.elapsed_ms < self.duration_ms
        } else {
            self.elapsed_ms <= self.duration_ms
        }
    }

    /// The state after advancing by `delta_ms`.
    pub open spec fn spec_tick(self, delta_ms: u64) -> Timer {
        let total = self.elapsed_ms + delta_ms;
        if self.repeating {
            Timer {
                elapsed_ms: (total % (self.duration_ms as int)) as u64,
                just_finished: total >= self.duration_ms,
                ..self
            }
        } else {
            Timer {
                elapsed_ms: if total >= self.duration_ms {
                    self.duration_ms
                } else {
                    total as u64
                },
                just_finished: self.elapsed_ms < self.duration_ms && total >= self.duration_ms,
                ..self
            }
        }
    }

    /// Whether the timer has run out: a repeating timer reports the tick in
    /// which it wrapped, a one-shot timer stays finished once it runs out.
    pub open spec fn spec_finished(self) -> bool {
        if self.repeating {
            self.just_finished
        } else {
            self.elapsed_ms >= self.duration_ms
        }
    }

    pub fn from_millis(duration_ms: u64, repeating: bool) -> (t: Timer)
        requires
            repeating ==> duration_ms > 0,
        ensures
            t == (Timer { duration_ms, elapsed_ms: 0, repeating, just_finished: false }),
            t.wf(),
    {
        Timer { duration_ms, elapsed_ms: 0, repeating, just_finished: false }
    }

    pub fn tick(&mut self, delta_ms: u64)
        requires
            old(self).wf(),
            old(self).elapsed_ms + delta_ms <= u64::MAX,
        ensures
            *final(self) == old(self).spec_tick(delta_ms),
            final(self).wf(),
    {
        let total = self.elapsed_ms + delta_ms;
        if self.repeating {
            self.just_finished = total >= self.duration_ms;
            self.elapsed_ms = total % self.duration_ms;
        } else {
            self.just_finished = self.elapsed_ms < self.duration_ms && total >= self.duration_ms;
            self.elapsed_ms = if total >= self.duration_ms {
                self.duration_ms
            } else {
                total
            };
        }
    }

    pub fn finished(&self) -> (r: bool)
        ensures
            r == self.spec_finished(),
    {
        if self.repeating {
            self.just_finished
        } else {
            self.elapsed_ms >= self.duration_ms
        }
    }

    pub fn just_finished(&self) -> (r: bool)
        ensures
            r == self.just_finished,
    {
        self.just_finished
    }

    pub fn set_duration(&mut self, duration_ms: u64)
        ensures
            *final(self) == (Timer { duration_ms, ..*old(self) }),
    {
        self.duration_ms = duration_ms;
    }

    pub fn reset(&mut self)
        ensures
            *final(self) == (Timer { elapsed_ms: 0, just_finished: false, ..*old(self) }),
            !final(self).repeating || final(self).duration_ms > 0 ==> final(self).wf(),
    {
        self.elapsed_ms = 0;
        self.just_finished = false;
    }
}

impl Default for Timer {
    /// A one-shot timer of zero duration, which is finished as soon as it is
    /// first ticked.
    fn default() -> (t: Timer)
        ensures
            t == (Timer { duration_ms: 0, elapsed_ms: 0, repeating: false, just_finished: false }),
            t.wf(),
    {
        Timer { duration_ms: 0, elapsed_ms: 0, repeating: false, just_finished: false }
    }
}

} // verus!
