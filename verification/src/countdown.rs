//! Pre-race countdown timing.
//!
//! A restart is latched and takes effect at the next observed frame time,
//! which becomes the countdown's start time. The match starts once the
//! countdown has run its course; until then the client holds its ship still.
//! The stage tells a display which numeral to show.

use crate::fx::{fx_sub, fx_sub_s, FX_ONE};
use vstd::prelude::*;

verus! {

/// How long the countdown runs before the match starts.
pub const COUNTDOWN_LEN: i64 = 3000;

/// The numeral a countdown display shows.
#[derive(Clone, Copy, PartialEq, Eq, Structural, Debug)]
pub enum CountdownStage {
    Three,
    Two,
    One,
    Go,
}

/// The countdown clock: when the current race's countdown began, and
/// whether a restart is waiting for the next observed frame time.
#[derive(Clone, Copy, PartialEq, Eq, Structural, Debug)]
pub struct Countdown {
    /// Frame time at which the countdown last (re)started.
    pub start_time: i64,
    /// A restart was asked for and takes effect at the next observation.
    pub needs_restart: bool,
}

/// The countdown after observing a frame time: a pending restart makes that
/// time the new start time.
pub open spec fn observe_s(c: Countdown, time: int) -> Countdown {
    if c.needs_restart {
        Countdown { start_time: time as i64, needs_restart: false }
    } else {
        c
    }
}

/// The numeral to show after `elapsed` time: the three seconds count down,
/// then the display stays on go.
pub open spec fn stage_s(elapsed: int) -> CountdownStage {
    let second = elapsed / (FX_ONE as int);
    if second == 0 {
        CountdownStage::Three
    } else if second == 1 {
        CountdownStage::Two
    } else if second == 2 {
        CountdownStage::One
    } else {
        CountdownStage::Go
    }
}

impl Countdown {
    /// A clock that has never been restarted.
    pub fn new() -> (r: Self)
        ensures
            r == (Countdown { start_time: 0, needs_restart: false }),
    {
        Self { start_time: 0, needs_restart: false }
    }

    /// Ask for a restart; it takes effect at the next observed frame time.
    pub fn restart(&mut self)
        ensures
            *final(self) == (Countdown { needs_restart: true, ..*old(self) }),
    {
        self.needs_restart = true;
    }

    /// Observe the current frame time, latching a pending restart.
    pub fn observe(&mut self, time: i64)
        ensures
            *final(self) == observe_s(*old(self), time as int),
    {
        if self.needs_restart {
            self.start_time = time;
            self.needs_restart = false;
        }
    }

    /// Time passed since the countdown started, saturating.
    pub open spec fn elapsed_s(self, time: int) -> int {
        fx_sub_s(time, self.start_time as int)
    }

    /// Time passed since the countdown started, saturating.
    pub fn elapsed(&self, time: i64) -> (r: i64)
        ensures
            r == self.elapsed_s(time as int),
    {
        fx_sub(time, self.start_time)
    }

    /// Whether the countdown has run its course and the match is on. A clock
    /// with a restart still pending has not started the match.
    pub open spec fn match_started_s(self, time: int) -> bool {
        !self.needs_restart && self.elapsed_s(time) >= COUNTDOWN_LEN as int
    }

    /// Whether the countdown has run its course and the match is on.
    pub fn match_started(&self, time: i64) -> (r: bool)
        ensures
            r == self.match_started_s(time as int),
    {
        !self.needs_restart && self.elapsed(time) >= COUNTDOWN_LEN
    }

    /// The numeral a display should show at the given frame time.
    pub fn stage(&self, time: i64) -> (r: CountdownStage)
        requires
            self.elapsed_s(time as int) >= 0,
        ensures
            r == stage_s(self.elapsed_s(time as int)),
    {
        let e = self.elapsed(time);
        let second = (e as u64) / (FX_ONE as u64);
        if second == 0 {
            CountdownStage::Three
        } else if second == 1 {
            CountdownStage::Two
        } else if second == 2 {
            CountdownStage::One
        } else {
            CountdownStage::Go
        }
    }
}

} // verus!
