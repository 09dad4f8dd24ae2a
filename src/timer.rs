use vstd::prelude::*;

verus! {

#[derive(Clone, Copy, Debug, PartialEq, Eq, Structural)]
pub enum TimerMode {
    Once,
    Repeating,
}

/// A countdown measured in milliseconds, ticked by the frame clock.
///
/// A `Once` timer stops at its duration and stays finished. A `Repeating`
/// timer wraps its elapsed time around the duration and reports
/// `just_finished` on each tick during which a period completed.
#[derive(Clone, Copy, Debug, PartialEq, Eq, Structural)]
pub struct Timer {
    pub duration: u64,
    pub elapsed: u64,
    pub mode: TimerMode,
    pub finished: bool,
    pub just_finished: bool,
}

impl Timer {
    pub open spec fn wf(self) -> bool {
        match self.mode {
            TimerMode::Once => self.elapsed <= self.duration,
            TimerMode::Repeating => self.elapsed < self.duration || (self.duration == 0
                && self.elapsed == 0),
        }
    }

    /// The timer after `delta` milliseconds have passed.
    pub open spec fn ticked(self, delta: u64) -> Timer {
        let total = self.elapsed + delta;
        match self.mode {
            TimerMode::Once => if self.finished {
                Timer { just_finished: false, ..self }
            } else if total >= self.duration {
                Timer { elapsed: self.duration, finished: true, just_finished: true, ..self }
            } else {
                Timer { elapsed: total as u64, finished: false, just_finished: false, ..self }
            },
            TimerMode::Repeating => if total >= self.duration {
                Timer {
                    elapsed: (if self.duration == 0 {
                        0
                    } else {
                        total % (self.duration as int)
                    }) as u64,
                    finished: true,
                    just_finished: true,
                    ..self
                }
            } else {
                Timer { elapsed: total as u64, finished: false, just_finished: false, ..self }
            },
        }
    }

    pub open spec fn from_millis_spec(duration: u64, mode: TimerMode) -> Timer {
        Timer { duration, elapsed: 0, mode, finished: false, just_finished: false }
    }

    pub fn from_millis(duration: u64, mode: TimerMode) -> (r: Timer)
        ensures
            r.wf(),
            r == Timer::from_millis_spec(duration, mode),
    {
        Timer { duration, elapsed: 0, mode, finished: false, just_finished: false }
    }

    pub fn tick(&mut self, delta: u64)
        requires
            old(self).wf(),
        ensures
            final(self).wf(),
            *final(self) == old(self).ticked(delta),
    {
        match self.mode {
            TimerMode::Once => {
                if self.finished {
                    self.just_finished = false;
                } else if delta >= self.duration - self.elapsed {
                    self.elapsed = self.duration;
                    self.finished = true;
                    self.just_finished = true;
                } else {
                    self.elapsed = self.elapsed + delta;
                    self.finished = false;
                    self.just_finished = false;
                }
            },
            TimerMode::Repeating => {
                let total: u128 = self.elapsed as u128 + delta as u128;
                if total >= self.duration as u128 {
                    if self.duration == 0 {
                        self.elapsed = 0;
                    } else {
                        let rem: u128 = total % (self.duration as u128);
                        self.elapsed = rem as u64;
                    }
                    self.finished = true;
                    self.just_finished = true;
                } else {
                    self.elapsed = total as u64;
                    self.finished = false;
                    self.just_finished = false;
                }
            },
        }
    }

    /// Starts the countdown over.
    pub fn reset(&mut self)
        ensures
            *final(self) == (Timer {
                elapsed: 0,
                finished: false,
                just_finished: false,
                ..*old(self)
            }),
    {
        self.elapsed = 0;
        self.finished = false;
        self.just_finished = false;
    }

    pub fn finished(&self) -> (r: bool)
        ensures
            r == self.finished,
    {
        self.finished
    }

    pub fn just_finished(&self) -> (r: bool)
        ensures
            r == self.just_finished,
    {
        self.just_finished
    }
}

} // verus!
