//! The delay for which the splash screen is shown.

use vstd::prelude::*;

verus! {

/// How long the splash screen stays, in milliseconds.
pub const SPLASH_DELAY_MILLIS: u64 = 1000;

/// The time that has passed after `delta_millis` more milliseconds. The sum
/// stops at the largest value that can be counted.
pub open spec fn spec_elapsed_after(elapsed_millis: u64, delta_millis: u64) -> u64 {
    if elapsed_millis + delta_millis > u64::MAX {
        u64::MAX
    } else {
        (elapsed_millis + delta_millis) as u64
    }
}

/// Counts the time for which the splash screen has been shown.
#[derive(Clone, Copy, Debug, PartialEq, Eq, Structural)]
pub struct SplashTimer {
    pub elapsed_millis: u64,
}

impl SplashTimer {
    /// Whether the splash delay has run out.
    pub open spec fn spec_finished(&self) -> bool {
        self.elapsed_millis >= SPLASH_DELAY_MILLIS
    }

    /// A timer that has counted nothing yet.
    pub fn new() -> (timer: SplashTimer)
        ensures
            timer.elapsed_millis == 0,
    {
        SplashTimer { elapsed_millis: 0 }
    }

    /// Tells whether the splash delay has run out.
    pub fn finished(&self) -> (done: bool)
        ensures
            done == self.spec_finished(),
    {
        self.elapsed_millis >= SPLASH_DELAY_MILLIS
    }

    /// Counts `delta_millis` more milliseconds and tells whether the splash
    /// delay has run out.
    pub fn tick(&mut self, delta_millis: u64) -> (done: bool)
        ensures
            final(self).elapsed_millis == spec_elapsed_after(
                old(self).elapsed_millis,
                delta_millis,
            ),
            done == final(self).spec_finished(),
            old(self).spec_finished() ==> done,
    {
        if delta_millis > u64::MAX - self.elapsed_millis {
            self.elapsed_millis = u64::MAX;
        } else {
            self.elapsed_millis = self.elapsed_millis + delta_millis;
        }
        self.finished()
    }
}

} // verus!
