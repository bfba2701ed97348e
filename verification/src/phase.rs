//! The coarse game state and the cooldown timer that brings a dead game back
//! to life.

use vstd::prelude::*;

verus! {

/// The two phases of a game. Play happens in `RUNNING`; a self-collision
/// switches to `DEAD`, and after a fixed cooldown the game restarts into
/// `RUNNING`. No other transition exists.
#[allow(non_camel_case_types)]
#[derive(Clone, Copy, PartialEq, Eq, Structural, Debug)]
pub enum GameState {
    RUNNING,
    DEAD,
}

/// Accumulates real time spent in the `DEAD` phase, in milliseconds, up to a
/// fixed cooldown duration.
#[derive(Clone, Copy, PartialEq, Eq, Structural, Debug)]
pub struct GameOverTimer {
    pub duration_ms: u64,
    pub elapsed_ms: u64,
}

impl GameOverTimer {
    /// The elapsed time never runs past the duration.
    pub open spec fn wf(self) -> bool {
        self.elapsed_ms <= self.duration_ms
    }

    pub fn new(duration_ms: u64) -> (r: GameOverTimer)
        ensures
            r.duration_ms == duration_ms,
            r.elapsed_ms == 0,
            r.wf(),
    {
        GameOverTimer { duration_ms, elapsed_ms: 0 }
    }

    /// Rearms the timer: the accumulated time starts over at zero.
    pub fn reset(&mut self)
        ensures
            final(self).duration_ms == old(self).duration_ms,
            final(self).elapsed_ms == 0,
            final(self).wf(),
    {
        self.elapsed_ms = 0;
    }

    /// Advances the timer by `delta_ms` and reports whether the cooldown is
    /// now complete: it finishes exactly when the accumulated time reaches
    /// the duration.
    pub fn tick(&mut self, delta_ms: u64) -> (finished: bool)
        requires
            old(self).wf(),
        ensures
            final(self).duration_ms == old(self).duration_ms,
            finished <==> old(self).elapsed_ms + delta_ms >= old(self).duration_ms,
            final(self).elapsed_ms == if finished {
                old(self).duration_ms as int
            } else {
                old(self).elapsed_ms + delta_ms
            },
            final(self).wf(),
    {
        if delta_ms >= self.duration_ms - self.elapsed_ms {
            self.elapsed_ms = self.duration_ms;
            true
        } else {
            self.elapsed_ms = self.elapsed_ms + delta_ms;
            false
        }
    }
}

} // verus!
