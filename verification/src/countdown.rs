//! The countdown primitive shared by every phase of a workout.

use vstd::prelude::*;
use crate::time_text::{get_time_text, time_text};

verus! {

/// Elapsed seconds counted up to a fixed maximum, with the percentage done.
#[derive(Clone, Copy, Debug, PartialEq, Eq, Structural)]
pub struct Countdown {
    pub current: u32,
    pub max: u32,
    pub progress: u16,
    pub finished: bool,
}

/// The whole percentage of `max` that `current` has reached, rounded down.
pub open spec fn percent(current: int, max: int) -> int {
    current * 100 / max
}

/// A percentage of a positive maximum that is not exceeded lies between 0 and
/// 100, and is 100 exactly when the maximum is reached.
pub proof fn lemma_percent_range(current: int, max: int)
    requires
        0 <= current <= max,
        0 < max,
    ensures
        0 <= percent(current, max) <= 100,
        percent(current, max) == 100 <==> current == max,
{
    assert(0 <= current * 100 / max <= 100 && (current * 100 / max == 100 <==> current == max))
        by (nonlinear_arith)
        requires
            0 <= current <= max,
            0 < max,
    ;
}

impl Countdown {
    /// The fields agree with each other: a positive maximum that is not
    /// exceeded, the stored percentage, and the finished flag.
    pub open spec fn wf(self) -> bool {
        &&& self.max > 0
        &&& self.current <= self.max
        &&& self.progress == percent(self.current as int, self.max as int)
        &&& self.finished == (self.current == self.max)
    }

    /// A countdown of `max` seconds on which no time has passed.
    pub open spec fn fresh(max: u32) -> Countdown {
        Countdown { current: 0, max, progress: 0, finished: false }
    }

    /// The countdown after `by` more seconds: unchanged once finished,
    /// otherwise `by` seconds further on.
    pub open spec fn advanced(self, by: u32) -> Countdown {
        if self.finished {
            self
        } else {
            Countdown {
                current: (self.current + by) as u32,
                max: self.max,
                progress: percent(self.current + by, self.max as int) as u16,
                finished: self.current + by == self.max,
            }
        }
    }

    /// The countdown put back to its start, with the same maximum.
    pub open spec fn cleared(self) -> Countdown {
        Self::fresh(self.max)
    }

    /// What the label shows: the elapsed and the total time, as clock texts.
    pub open spec fn label_text(self) -> Seq<char> {
        time_text(self.current as nat) + seq!['/'] + time_text(self.max as nat)
    }

    /// Whether `by` more seconds stay within the maximum, so that `advance`
    /// keeps the countdown well formed.
    pub open spec fn can_advance(self, by: u32) -> bool {
        !self.finished ==> self.current + by <= self.max
    }

    /// The progress of a well-formed countdown is a percentage, and it is 100
    /// exactly when the countdown is finished.
    pub proof fn lemma_progress_range(self)
        requires
            self.wf(),
        ensures
            0 <= self.progress <= 100,
            self.progress == 100 <==> self.finished,
    {
        lemma_percent_range(self.current as int, self.max as int);
    }

    /// Advancing a well-formed countdown by nothing leaves it as it is.
    pub proof fn lemma_advanced_by_zero(self)
        requires
            self.wf(),
        ensures
            self.advanced(0) == self,
    {
    }

    /// Advancing within the maximum keeps a countdown well formed.
    pub proof fn lemma_advanced_wf(self, by: u32)
        requires
            self.wf(),
            self.can_advance(by),
        ensures
            self.advanced(by).wf(),
    {
        if !self.finished {
            lemma_percent_range(self.current + by, self.max as int);
        }
    }

    /// A countdown of `max` seconds on which no time has passed.
    pub fn new(max: u32) -> (countdown: Countdown)
        requires
            max > 0,
        ensures
            countdown == Self::fresh(max),
            countdown.wf(),
    {
        proof {
            lemma_percent_range(0, max as int);
        }
        Countdown { current: 0, max, progress: 0, finished: false }
    }

    /// Whether the fields agree with each other.
    pub fn is_well_formed(&self) -> (well_formed: bool)
        ensures
            well_formed == self.wf(),
    {
        self.max > 0 && self.current <= self.max && self.progress as u64 == (self.current as u64)
            * 100 / (self.max as u64) && self.finished == (self.current == self.max)
    }

    /// Counts `by` more seconds, unless the countdown is already finished.
    pub fn advance(&mut self, by: u32)
        requires
            old(self).wf(),
            old(self).can_advance(by),
        ensures
            *final(self) == old(self).advanced(by),
            final(self).wf(),
            0 <= final(self).progress <= 100,
            final(self).progress == 100 <==> final(self).finished,
    {
        proof {
            self.lemma_advanced_wf(by);
            self.advanced(by).lemma_progress_range();
        }
        if !self.finished {
            self.current = self.current + by;
            let scaled: u64 = (self.current as u64) * 100;
            self.progress = (scaled / (self.max as u64)) as u16;
            if self.current == self.max {
                self.finished = true;
            }
        }
    }

    /// Puts the countdown back to its start.
    pub fn reset(&mut self)
        ensures
            *final(self) == old(self).cleared(),
            old(self).max > 0 ==> final(self).wf(),
    {
        proof {
            if self.max > 0 {
                lemma_percent_range(0, self.max as int);
            }
        }
        self.finished = false;
        self.progress = 0;
        self.current = 0;
    }

    /// The elapsed and the total time as `HH:MM:SS/HH:MM:SS`.
    pub fn label(&self) -> (text: String)
        ensures
            text@ == self.label_text(),
    {
        let mut text = get_time_text(self.current);
        let total = get_time_text(self.max);
        proof {
            reveal_strlit("/");
            assert("/"@ =~= seq!['/']);
        }
        text.append("/");
        text.append(total.as_str());
        text
    }
}

} // verus!
