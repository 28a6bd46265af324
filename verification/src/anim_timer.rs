//! The timer that drives animations.
use vstd::prelude::*;

verus! {

/// A timer that posts a message again and again until it is stopped.
#[derive(Debug, Clone, Copy, PartialEq, Eq, Structural)]
pub struct AnimationTimer {
    stop_flag: bool,
}

/// What the timer does next.
#[derive(Debug, Clone, Copy, PartialEq, Eq, Structural)]
pub enum TimerStep {
    /// Post the animation message.
    Post,
    /// Sleep for the interval, then look again whether the timer was stopped.
    Sleep,
    /// End the timer's thread.
    Exit,
}

impl AnimationTimer {
    /// Whether the timer was stopped.
    pub closed spec fn stopped(&self) -> bool {
        self.stop_flag
    }

    /// A timer that runs.
    pub fn new() -> (timer: Self)
        ensures
            !timer.stopped(),
    {
        AnimationTimer { stop_flag: false }
    }

    /// Stops the timer.
    pub fn stop(&mut self)
        ensures
            final(self).stopped(),
    {
        self.stop_flag = true;
    }

    /// What to do at the start of a round.
    pub fn next_step(&self) -> (step: TimerStep)
        ensures
            step == (if self.stopped() {
                TimerStep::Exit
            } else {
                TimerStep::Post
            }),
    {
        if self.stop_flag {
            TimerStep::Exit
        } else {
            TimerStep::Post
        }
    }

    /// What to do once the message was posted, or could not be.
    pub fn after_post(posted: bool) -> (step: TimerStep)
        ensures
            step == (if posted {
                TimerStep::Sleep
            } else {
                TimerStep::Exit
            }),
    {
        if posted {
            TimerStep::Sleep
        } else {
            TimerStep::Exit
        }
    }
}

} // verus!
