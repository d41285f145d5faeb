//! The phases of a workout: the workout as a whole, a set, an exercise and
//! a rest. Each is a countdown; a set and an exercise also count their
//! repetitions.

use vstd::prelude::*;
use crate::countdown::Countdown;
use crate::time_text::{decimal_text, push_decimal};

verus! {

/// The whole workout.
#[derive(Clone, Copy, Debug, PartialEq, Eq, Structural)]
pub struct Workout {
    pub time: Countdown,
}

/// One set of exercises, and which set of the workout it is.
#[derive(Clone, Copy, Debug, PartialEq, Eq, Structural)]
pub struct WorkoutSet {
    pub time: Countdown,
    pub ordinal: u32,
    pub quantity: u32,
}

/// One exercise, and which exercise of its set it is.
#[derive(Clone, Copy, Debug, PartialEq, Eq, Structural)]
pub struct Excercise {
    pub time: Countdown,
    pub ordinal: u32,
    pub quantity: u32,
}

/// A rest between two exercises or between two sets.
#[derive(Clone, Copy, Debug, PartialEq, Eq, Structural)]
pub struct Rest {
    pub time: Countdown,
}

/// The repetition that follows `ordinal` where the count starts over after
/// `quantity`.
pub open spec fn next_ordinal(ordinal: u32, quantity: u32) -> u32 {
    if ordinal >= quantity {
        1
    } else {
        (ordinal + 1) as u32
    }
}

/// The title of a repeated phase: its name, the repetition and how many
/// there are.
pub open spec fn title_text(name: Seq<char>, ordinal: u32, quantity: u32) -> Seq<char> {
    name + seq![' '] + decimal_text(ordinal as nat) + seq!['/'] + decimal_text(quantity as nat)
        + " Timer"@
}

fn get_title_text(name: &str, ordinal: u32, quantity: u32) -> (title: String)
    ensures
        title@ == title_text(name@, ordinal, quantity),
{
    proof {
        reveal_strlit(" ");
        reveal_strlit("/");
        assert(" "@ =~= seq![' ']);
        assert("/"@ =~= seq!['/']);
    }
    let mut title = String::new();
    title.append(name);
    title.append(" ");
    push_decimal(&mut title, ordinal);
    title.append("/");
    push_decimal(&mut title, quantity);
    title.append(" Timer");
    assert(title@ =~= title_text(name@, ordinal, quantity));
    title
}

impl Workout {
    /// A well-formed countdown.
    pub open spec fn wf(self) -> bool {
        self.time.wf()
    }

    /// A workout of `max_time` seconds at its start.
    pub fn new(max_time: u32) -> (workout: Workout)
        requires
            max_time > 0,
        ensures
            workout.time == Countdown::fresh(max_time),
            workout.wf(),
    {
        Workout { time: Countdown::new(max_time) }
    }

    /// Counts one more second of the workout, unless it is over.
    pub fn on_tick(&mut self)
        requires
            old(self).wf(),
        ensures
            final(self).time == old(self).time.advanced(1),
            final(self).wf(),
    {
        self.time.advance(1);
    }

    /// The elapsed and the total time as `HH:MM:SS/HH:MM:SS`.
    pub fn get_label(&self) -> (label: String)
        ensures
            label@ == self.time.label_text(),
    {
        self.time.label()
    }
}

impl WorkoutSet {
    /// A well-formed countdown and a repetition counted from 1.
    pub open spec fn wf(self) -> bool {
        &&& self.time.wf()
        &&& 1 <= self.ordinal
    }

    /// The first of `quantity` sets of `max_time` seconds, at its start.
    pub fn new(max_time: u32, quantity: u32) -> (set: WorkoutSet)
        requires
            max_time > 0,
            quantity > 0,
        ensures
            set == (WorkoutSet { time: Countdown::fresh(max_time), ordinal: 1, quantity }),
            set.wf(),
    {
        WorkoutSet { time: Countdown::new(max_time), ordinal: 1, quantity }
    }

    /// Counts `increment` more seconds of the set, unless it is over.
    pub fn on_tick(&mut self, increment: u32)
        requires
            old(self).wf(),
            old(self).time.can_advance(increment),
        ensures
            *final(self) == (WorkoutSet { time: old(self).time.advanced(increment), ..*old(self) }),
            final(self).wf(),
    {
        self.time.advance(increment);
    }

    /// Starts the countdown over. The repetition stays.
    pub fn clear(&mut self)
        ensures
            *final(self) == (WorkoutSet { time: old(self).time.cleared(), ..*old(self) }),
            old(self).wf() ==> final(self).wf(),
    {
        self.time.reset();
    }

    /// Goes on to the next set. The count does not start over.
    pub fn increment(&mut self)
        requires
            old(self).ordinal < u32::MAX,
        ensures
            *final(self) == (WorkoutSet { ordinal: (old(self).ordinal + 1) as u32, ..*old(self) }),
    {
        self.ordinal = self.ordinal + 1;
    }

    /// The title of the set, as in `Set 1/3 Timer`.
    pub open spec fn title(self) -> Seq<char> {
        title_text("Set"@, self.ordinal, self.quantity)
    }

    /// The title of the set, as in `Set 1/3 Timer`.
    pub fn get_title(&self) -> (title: String)
        ensures
            title@ == self.title(),
    {
        get_title_text("Set", self.ordinal, self.quantity)
    }

    /// The elapsed and the total time as `HH:MM:SS/HH:MM:SS`.
    pub fn get_label(&self) -> (label: String)
        ensures
            label@ == self.time.label_text(),
    {
        self.time.label()
    }
}

impl Excercise {
    /// A well-formed countdown and a repetition between 1 and the quantity.
    pub open spec fn wf(self) -> bool {
        &&& self.time.wf()
        &&& 1 <= self.ordinal <= self.quantity
    }

    /// The first of `quantity` exercises of `max_time` seconds, at its start.
    pub fn new(max_time: u32, quantity: u32) -> (excercise: Excercise)
        requires
            max_time > 0,
            quantity > 0,
        ensures
            excercise == (Excercise { time: Countdown::fresh(max_time), ordinal: 1, quantity }),
            excercise.wf(),
    {
        Excercise { time: Countdown::new(max_time), ordinal: 1, quantity }
    }

    /// Counts `increment` more seconds of the exercise, unless it is over.
    pub fn on_tick(&mut self, increment: u32)
        requires
            old(self).wf(),
            old(self).time.can_advance(increment),
        ensures
            *final(self) == (Excercise { time: old(self).time.advanced(increment), ..*old(self) }),
            final(self).wf(),
    {
        self.time.advance(increment);
    }

    /// Starts the countdown over. The repetition stays.
    pub fn clear(&mut self)
        ensures
            *final(self) == (Excercise { time: old(self).time.cleared(), ..*old(self) }),
            old(self).wf() ==> final(self).wf(),
    {
        self.time.reset();
    }

    /// Goes on to the next exercise; after the last one of a set comes the
    /// first one again.
    pub fn increment(&mut self)
        ensures
            *final(self) == (Excercise {
                ordinal: next_ordinal(old(self).ordinal, old(self).quantity),
                ..*old(self)
            }),
            old(self).quantity >= 1 ==> 1 <= final(self).ordinal <= final(self).quantity,
    {
        if self.ordinal >= self.quantity {
            self.ordinal = 1;
        } else {
            self.ordinal = self.ordinal + 1;
        }
    }

    /// The title of the exercise, as in `Excercise 1/10 Timer`.
    pub open spec fn title(self) -> Seq<char> {
        title_text("Excercise"@, self.ordinal, self.quantity)
    }

    /// The title of the exercise, as in `Excercise 1/10 Timer`.
    pub fn get_title(&self) -> (title: String)
        ensures
            title@ == self.title(),
    {
        get_title_text("Excercise", self.ordinal, self.quantity)
    }

    /// The elapsed and the total time as `HH:MM:SS/HH:MM:SS`.
    pub fn get_label(&self) -> (label: String)
        ensures
            label@ == self.time.label_text(),
    {
        self.time.label()
    }
}

impl Rest {
    /// A well-formed countdown.
    pub open spec fn wf(self) -> bool {
        self.time.wf()
    }

    /// A rest of `max_time` seconds at its start.
    pub fn new(max_time: u32) -> (rest: Rest)
        requires
            max_time > 0,
        ensures
            rest.time == Countdown::fresh(max_time),
            rest.wf(),
    {
        Rest { time: Countdown::new(max_time) }
    }

    /// Counts `increment` more seconds of the rest, unless it is over.
    pub fn on_tick(&mut self, increment: u32)
        requires
            old(self).wf(),
            old(self).time.can_advance(increment),
        ensures
            final(self).time == old(self).time.advanced(increment),
            final(self).wf(),
    {
        self.time.advance(increment);
    }

    /// Starts the countdown over.
    pub fn clear(&mut self)
        ensures
            final(self).time == old(self).time.cleared(),
            old(self).wf() ==> final(self).wf(),
    {
        self.time.reset();
    }

    /// The elapsed and the total time as `HH:MM:SS/HH:MM:SS`.
    pub fn get_label(&self) -> (label: String)
        ensures
            label@ == self.time.label_text(),
    {
        self.time.label()
    }
}

} // verus!
