//! Timers that are driven by the time that has passed between two frames.
//!
//! Time is counted in nanoseconds.

use vstd::prelude::*;

verus! {

/// What a timer does when it has run out.
#[derive(Debug, Clone, Copy, PartialEq, Eq, Structural, Hash)]
pub enum TimerMode {
    /// The timer runs out once and stays so.
    Once,
    /// The timer starts over each time it runs out.
    Repeating,
}

/// A timer that runs over a fixed length of time.
#[derive(Debug, Clone, Copy)]
pub struct Timer {
    duration: u64,
    elapsed: u64,
    mode: TimerMode,
    paused: bool,
    finished: bool,
    just_finished: bool,
}

/// The sum of two lengths of time, held to the longest that can be counted.
pub open spec fn time_sum(a: nat, b: nat) -> nat {
    if a + b > u64::MAX {
        u64::MAX as nat
    } else {
        a + b
    }
}

impl Timer {
    /// The length of time over which the timer runs.
    pub closed spec fn duration(self) -> nat {
        self.duration as nat
    }

    /// The time for which the timer has run, since it last started over
    /// where it repeats.
    pub closed spec fn elapsed(self) -> nat {
        self.elapsed as nat
    }

    /// What the timer does when it has run out.
    pub closed spec fn mode(self) -> TimerMode {
        self.mode
    }

    /// Whether the timer is held.
    pub closed spec fn paused(self) -> bool {
        self.paused
    }

    /// Whether the timer has run out. Of a timer that repeats: whether it
    /// ran out in the last tick.
    pub closed spec fn finished(self) -> bool {
        self.finished
    }

    /// Whether the timer ran out in the last tick.
    pub closed spec fn just_finished(self) -> bool {
        self.just_finished
    }

    /// A timer has never run for longer than its length.
    pub open spec fn wf(self) -> bool {
        self.elapsed() <= self.duration()
    }

    /// What a tick of `delta` makes of the timer.
    ///
    /// A held timer does not run. A timer that runs once and has run out
    /// stays as it is. Any other timer runs for `delta` more; where that
    /// takes it to its length or beyond it has run out: it then stands at
    /// its length if it runs once, and starts over with what went beyond if
    /// it repeats.
    pub open spec fn ticked(self, delta: nat, after: Timer) -> bool {
        let run = time_sum(self.elapsed(), delta);
        &&& after.duration() == self.duration()
        &&& after.mode() == self.mode()
        &&& after.paused() == self.paused()
        &&& if self.paused() {
            &&& after.elapsed() == self.elapsed()
            &&& !after.just_finished()
            &&& after.finished() == (self.finished() && self.mode() == TimerMode::Once)
        } else if self.mode() == TimerMode::Once && self.finished() {
            &&& after.elapsed() == self.elapsed()
            &&& !after.just_finished()
            &&& after.finished()
        } else if run >= self.duration() {
            &&& after.finished()
            &&& after.just_finished()
            &&& after.elapsed() == if self.mode() == TimerMode::Once {
                self.duration()
            } else if self.duration() == 0 {
                0
            } else {
                run % self.duration()
            }
        } else {
            &&& !after.finished()
            &&& !after.just_finished()
            &&& after.elapsed() == run
        }
    }

    /// A timer of the given length that has not run yet.
    pub closed spec fn spec_new(duration: u64, mode: TimerMode) -> Timer {
        Timer { duration, elapsed: 0, mode, paused: false, finished: false, just_finished: false }
    }

    /// The timer after a tick of `delta`.
    pub closed spec fn after_tick(self, delta: u64) -> Timer {
        let run = time_sum(self.elapsed as nat, delta as nat);
        if self.paused {
            Timer {
                just_finished: false,
                finished: self.finished && self.mode == TimerMode::Once,
                ..self
            }
        } else if self.mode == TimerMode::Once && self.finished {
            Timer { just_finished: false, ..self }
        } else if run >= self.duration {
            Timer {
                finished: true,
                just_finished: true,
                elapsed: if self.mode == TimerMode::Once {
                    self.duration
                } else if self.duration == 0 {
                    0
                } else {
                    (run % (self.duration as nat)) as u64
                },
                ..self
            }
        } else {
            Timer { finished: false, just_finished: false, elapsed: run as u64, ..self }
        }
    }

    /// A new timer has not run, is not held and has not run out.
    pub proof fn lemma_spec_new(duration: u64, mode: TimerMode)
        ensures
            Timer::spec_new(duration, mode).wf(),
            Timer::spec_new(duration, mode).duration() == duration,
            Timer::spec_new(duration, mode).elapsed() == 0,
            Timer::spec_new(duration, mode).mode() == mode,
            !Timer::spec_new(duration, mode).paused(),
            !Timer::spec_new(duration, mode).finished(),
            !Timer::spec_new(duration, mode).just_finished(),
    {
    }

    /// The timer after a tick is what a tick makes of it.
    pub proof fn lemma_after_tick(self, delta: u64)
        requires
            self.wf(),
        ensures
            self.ticked(delta as nat, self.after_tick(delta)),
            self.after_tick(delta).wf(),
    {
        let run = time_sum(self.elapsed as nat, delta as nat);
        if self.duration > 0 {
            vstd::arithmetic::div_mod::lemma_mod_bound(run as int, self.duration as int);
        }
    }

    /// A timer of the given length that has not run yet.
    pub fn new(duration: u64, mode: TimerMode) -> (r: Timer)
        ensures
            r == Timer::spec_new(duration, mode),
            r.wf(),
    {
        Timer { duration, elapsed: 0, mode, paused: false, finished: false, just_finished: false }
    }

    /// Lets `delta` pass.
    pub fn tick(&mut self, delta: u64)
        requires
            old(self).wf(),
        ensures
            final(self).wf(),
            *final(self) == old(self).after_tick(delta),
    {
        proof {
            self.lemma_after_tick(delta);
        }
        if self.paused {
            self.just_finished = false;
            if self.mode == TimerMode::Repeating {
                self.finished = false;
            }
            return ;
        }
        if self.mode == TimerMode::Once && self.finished {
            self.just_finished = false;
            return ;
        }
        let run: u64 = self.elapsed.saturating_add(delta);
        if run >= self.duration {
            self.finished = true;
            self.just_finished = true;
            if self.mode == TimerMode::Once {
                self.elapsed = self.duration;
            } else if self.duration == 0 {
                self.elapsed = 0;
            } else {
                self.elapsed = run % self.duration;
            }
        } else {
            self.finished = false;
            self.just_finished = false;
            self.elapsed = run;
        }
    }

    /// Whether the timer ran out in the last tick.
    pub fn is_just_finished(&self) -> (r: bool)
        ensures
            r == self.just_finished(),
    {
        self.just_finished
    }

    /// Whether the timer has run out.
    pub fn is_finished(&self) -> (r: bool)
        ensures
            r == self.finished(),
    {
        self.finished
    }

    /// Whether the timer is held.
    pub fn is_paused(&self) -> (r: bool)
        ensures
            r == self.paused(),
    {
        self.paused
    }

    /// The time for which the timer has run.
    pub fn elapsed_nanos(&self) -> (r: u64)
        ensures
            r == self.elapsed(),
    {
        self.elapsed
    }

    /// The length of time over which the timer runs.
    pub fn duration_nanos(&self) -> (r: u64)
        ensures
            r == self.duration(),
    {
        self.duration
    }

    /// The time that the timer has still to run.
    pub fn remaining(&self) -> (r: u64)
        requires
            self.wf(),
        ensures
            r == self.duration() - self.elapsed(),
    {
        self.duration - self.elapsed
    }

    /// The timer with its hold set or lifted.
    pub closed spec fn held(self, paused: bool) -> Timer {
        Timer { paused, ..self }
    }

    /// The timer started over.
    pub closed spec fn started_over(self) -> Timer {
        Timer { elapsed: 0, finished: false, just_finished: false, ..self }
    }

    /// The length of a timer and the time for which it has run can be
    /// counted.
    pub proof fn lemma_countable(self)
        ensures
            self.duration() <= u64::MAX,
            self.elapsed() <= u64::MAX,
    {
    }

    /// A timer that is started over has run for no time and has not run
    /// out; nothing else about it changes.
    pub proof fn lemma_started_over(self)
        ensures
            self.started_over().wf(),
            self.started_over().elapsed() == 0,
            !self.started_over().finished(),
            !self.started_over().just_finished(),
            self.started_over().paused() == self.paused(),
            self.started_over().duration() == self.duration(),
            self.started_over().mode() == self.mode(),
    {
    }

    /// Setting or lifting the hold of a timer changes nothing else about
    /// it.
    pub proof fn lemma_held(self, paused: bool)
        ensures
            self.held(paused).paused() == paused,
            self.held(paused).elapsed() == self.elapsed(),
            self.held(paused).duration() == self.duration(),
            self.held(paused).mode() == self.mode(),
            self.held(paused).finished() == self.finished(),
            self.held(paused).just_finished() == self.just_finished(),
            self.wf() ==> self.held(paused).wf(),
    {
    }

    /// Holds the timer.
    pub fn pause(&mut self)
        ensures
            *final(self) == old(self).held(true),
            final(self).paused(),
            final(self).duration() == old(self).duration(),
            final(self).elapsed() == old(self).elapsed(),
            final(self).mode() == old(self).mode(),
            final(self).finished() == old(self).finished(),
            final(self).just_finished() == old(self).just_finished(),
    {
        self.paused = true;
    }

    /// Lets the timer run again.
    pub fn unpause(&mut self)
        ensures
            *final(self) == old(self).held(false),
            !final(self).paused(),
            final(self).duration() == old(self).duration(),
            final(self).elapsed() == old(self).elapsed(),
            final(self).mode() == old(self).mode(),
            final(self).finished() == old(self).finished(),
            final(self).just_finished() == old(self).just_finished(),
    {
        self.paused = false;
    }

    /// Starts the timer over. A held timer stays held.
    pub fn reset(&mut self)
        ensures
            *final(self) == old(self).started_over(),
            final(self).wf(),
            final(self).elapsed() == 0,
            !final(self).finished(),
            !final(self).just_finished(),
            final(self).paused() == old(self).paused(),
            final(self).duration() == old(self).duration(),
            final(self).mode() == old(self).mode(),
    {
        self.elapsed = 0;
        self.finished = false;
        self.just_finished = false;
    }
}

} // verus!
