//! The per-round countdown, driven by a free-running hardware tick counter.
//!
//! Each tick the caller hands in the counter's current raw value.  The
//! delta since the last reading is computed with wraparound-tolerant
//! subtraction and added to an accumulator; every time the accumulator
//! crosses the ticks-per-second threshold, one second is taken off and the
//! threshold subtracted, carrying the remainder forward so no time drifts
//! away.  While disabled the countdown ignores readings entirely.

use vstd::prelude::*;

verus! {

use vstd::wrapping::u32_specs;

/// Hardware ticks that make up one real-time second.
pub const SECOND_TICKS: u32 = 0x4000;

/// Mathematical model of the countdown.
#[verifier::ext_equal]
pub ghost struct CountdownView {
    /// The round length the countdown was configured with.
    pub seconds: int,
    /// Seconds remaining; the round is lost when this reaches zero.
    pub seconds_left: int,
    /// The raw counter value seen at the previous reading.
    pub last_ticks: u32,
    /// Ticks accumulated toward the next whole second.
    pub acc: u32,
    /// Whether readings are currently heeded.
    pub enabled: bool,
}

impl CountdownView {
    /// Seconds remaining never exceed the configured round length.
    pub open spec fn wf(self) -> bool {
        0 <= self.seconds_left <= self.seconds
    }

    /// The countdown after one reading of the raw counter: disabled means
    /// untouched; otherwise the wraparound-tolerant delta joins the
    /// accumulator, and a crossing of the one-second threshold costs one
    /// remaining second (never going below zero) and carries the remainder.
    pub open spec fn ticked(self, ticks: u32) -> CountdownView {
        if !self.enabled {
            self
        } else {
            let delta = u32_specs::wrapping_sub(ticks, self.last_ticks);
            let gathered = u32_specs::wrapping_add(self.acc, delta);
            if gathered >= SECOND_TICKS {
                CountdownView {
                    seconds_left: if self.seconds_left > 0 {
                        self.seconds_left - 1
                    } else {
                        0
                    },
                    last_ticks: ticks,
                    acc: (gathered - SECOND_TICKS) as u32,
                    ..self
                }
            } else {
                CountdownView { last_ticks: ticks, acc: gathered, ..self }
            }
        }
    }
}

/// The seconds-remaining countdown of one round.
pub struct Countdown {
    seconds: usize,
    seconds_left: usize,
    last_ticks: u32,
    acc: u32,
    enabled: bool,
}

impl View for Countdown {
    type V = CountdownView;

    closed spec fn view(&self) -> CountdownView {
        CountdownView {
            seconds: self.seconds as int,
            seconds_left: self.seconds_left as int,
            last_ticks: self.last_ticks,
            acc: self.acc,
            enabled: self.enabled,
        }
    }
}

impl Countdown {
    /// A countdown for rounds of `seconds` seconds; `reset` arms it.
    pub fn new(seconds: usize) -> (countdown: Countdown)
        ensures
            countdown@ == (CountdownView {
                seconds: seconds as int,
                seconds_left: 0,
                last_ticks: 0,
                acc: 0,
                enabled: true,
            }),
            countdown@.wf(),
    {
        Countdown { seconds, seconds_left: 0, last_ticks: 0, acc: 0, enabled: true }
    }

    /// Seconds remaining in the round.
    pub fn seconds_left(&self) -> (left: usize)
        ensures
            left as int == self@.seconds_left,
    {
        self.seconds_left
    }

    /// Rearms the countdown for a fresh round: the full round length is
    /// restored and the reading baseline cleared.
    pub fn reset(&mut self)
        ensures
            final(self)@ == (CountdownView {
                seconds_left: old(self)@.seconds,
                last_ticks: 0,
                ..old(self)@
            }),
            final(self)@.wf(),
    {
        self.last_ticks = 0;
        self.seconds_left = self.seconds;
    }

    /// Turns the countdown on or off; while off, readings are ignored and
    /// no second is ever taken.
    pub fn set_enabled(&mut self, enabled: bool)
        ensures
            final(self)@ == (CountdownView { enabled, ..old(self)@ }),
    {
        self.enabled = enabled;
    }

    /// Feeds one reading of the free-running hardware counter.
    pub fn update(&mut self, ticks: u32)
        requires
            old(self)@.wf(),
        ensures
            final(self)@ == old(self)@.ticked(ticks),
            final(self)@.wf(),
    {
        if !self.enabled {
            return ;
        }
        let delta = ticks.wrapping_sub(self.last_ticks);
        self.last_ticks = ticks;
        self.acc = self.acc.wrapping_add(delta);
        if self.acc >= SECOND_TICKS {
            self.acc = self.acc - SECOND_TICKS;
            if self.seconds_left > 0 {
                self.seconds_left = self.seconds_left - 1;
            }
        }
    }
}

} // verus!
