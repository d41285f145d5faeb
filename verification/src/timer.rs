//! The timer engine: the phases of one workout and the state machine that
//! decides, second by second, which of them run.

use vstd::prelude::*;
use crate::countdown::Countdown;
use crate::phases::{next_ordinal, Excercise, Rest, Workout, WorkoutSet};

verus! {

/// Which phase is running.
#[derive(Clone, Copy, Debug, PartialEq, Eq, Hash, Structural)]
pub enum TimerState {
    InSet,
    InSetRest,
    InExcerciseRest,
}

/// What a tick does to the running phase before any time is counted.
#[derive(Clone, Copy, Debug, PartialEq, Eq, Structural)]
pub enum Transition {
    /// The set is over: the rest between sets begins.
    EnterSetRest,
    /// The exercise is over, the set is not: the rest between exercises begins.
    EnterExcerciseRest,
    /// The rest between sets is over: the next set begins.
    LeaveSetRest,
    /// The rest between exercises is over: the next exercise begins.
    LeaveExcerciseRest,
    /// The running phase goes on.
    Stay,
}

/// The phases of one workout, and which of them is running.
#[derive(Clone, Copy, Debug, PartialEq, Eq, Structural)]
pub struct Timer {
    pub workout: Workout,
    pub set: WorkoutSet,
    pub set_rest: Rest,
    pub excercise: Excercise,
    pub excercise_rest: Rest,
    pub state: TimerState,
}

/// The seconds that one set takes: its exercises, the rests between them,
/// and the two seconds spent on entering and leaving each of these rests.
pub open spec fn set_time(
    excercise_time: int,
    excercise_quantity: int,
    excercise_rest_time: int,
) -> int {
    excercise_quantity * excercise_time + (excercise_quantity - 1) * excercise_rest_time + (2
        * excercise_quantity - 2)
}

/// The seconds that the whole workout takes: its sets, the rests between
/// them, and the two seconds spent on entering and leaving each of these
/// rests.
pub open spec fn total_time(
    excercise_time: int,
    excercise_quantity: int,
    excercise_rest_time: int,
    set_quantity: int,
    set_rest_time: int,
) -> int {
    set_quantity * set_time(excercise_time, excercise_quantity, excercise_rest_time) + (set_quantity
        - 1) * set_rest_time + (2 * set_quantity - 2)
}

/// The five values that a timer can be made of: all positive, with a total
/// time that a `u32` holds.
pub open spec fn valid_config(
    excercise_time: u32,
    excercise_quantity: u32,
    excercise_rest_time: u32,
    set_quantity: u32,
    set_rest_time: u32,
) -> bool {
    &&& excercise_time > 0
    &&& excercise_quantity > 0
    &&& excercise_rest_time > 0
    &&& set_quantity > 0
    &&& set_rest_time > 0
    &&& total_time(
        excercise_time as int,
        excercise_quantity as int,
        excercise_rest_time as int,
        set_quantity as int,
        set_rest_time as int,
    ) <= u32::MAX
}

/// In a valid configuration every part of the total time is at most the
/// total time.
pub proof fn lemma_config_bounds(e: int, q: int, r: int, s: int, sr: int)
    requires
        e > 0,
        q > 0,
        r > 0,
        s > 0,
        sr > 0,
    ensures
        q * e >= q,
        (q - 1) * r >= 0,
        set_time(e, q, r) >= q * e >= 1,
        set_time(e, q, r) >= (q - 1) * r,
        set_time(e, q, r) >= 3 * q - 2,
        s * set_time(e, q, r) >= set_time(e, q, r),
        s * set_time(e, q, r) >= s,
        (s - 1) * sr >= 0,
        total_time(e, q, r, s, sr) >= s * set_time(e, q, r),
        total_time(e, q, r, s, sr) >= (s - 1) * sr,
        total_time(e, q, r, s, sr) >= 3 * s - 2,
{
    assert(q * e >= q) by (nonlinear_arith)
        requires
            e > 0,
            q > 0,
    ;
    assert((q - 1) * r >= 0) by (nonlinear_arith)
        requires
            r > 0,
            q > 0,
    ;
    let st = set_time(e, q, r);
    assert(s * st >= st && s * st >= s) by (nonlinear_arith)
        requires
            s > 0,
            st > 0,
    ;
    assert((s - 1) * sr >= 0) by (nonlinear_arith)
        requires
            s > 0,
            sr > 0,
    ;
}

impl Timer {
    /// Every countdown is well formed and the repetitions are counted from 1,
    /// those of the exercise within its quantity.
    pub open spec fn wf(self) -> bool {
        &&& self.workout.wf()
        &&& self.set.wf()
        &&& self.set_rest.wf()
        &&& self.excercise.wf()
        &&& self.excercise_rest.wf()
    }

    /// The timer at the start of a workout.
    pub open spec fn initial(
        excercise_time: u32,
        excercise_quantity: u32,
        excercise_rest_time: u32,
        set_quantity: u32,
        set_rest_time: u32,
    ) -> Timer {
        let set_time = set_time(
            excercise_time as int,
            excercise_quantity as int,
            excercise_rest_time as int,
        );
        let total_time = total_time(
            excercise_time as int,
            excercise_quantity as int,
            excercise_rest_time as int,
            set_quantity as int,
            set_rest_time as int,
        );
        Timer {
            workout: Workout { time: Countdown::fresh(total_time as u32) },
            set: WorkoutSet {
                time: Countdown::fresh(set_time as u32),
                ordinal: 1,
                quantity: set_quantity,
            },
            set_rest: Rest { time: Countdown::fresh(set_rest_time) },
            excercise: Excercise {
                time: Countdown::fresh(excercise_time),
                ordinal: 1,
                quantity: excercise_quantity,
            },
            excercise_rest: Rest { time: Countdown::fresh(excercise_rest_time) },
            state: TimerState::InSet,
        }
    }

    /// The change of phase that the next tick begins with. A finished set
    /// goes before a finished exercise.
    pub open spec fn transition(self) -> Transition {
        match self.state {
            TimerState::InSet => if self.set.time.finished {
                Transition::EnterSetRest
            } else if self.excercise.time.finished {
                Transition::EnterExcerciseRest
            } else {
                Transition::Stay
            },
            TimerState::InSetRest => if self.set_rest.time.finished {
                Transition::LeaveSetRest
            } else {
                Transition::Stay
            },
            TimerState::InExcerciseRest => if self.excercise_rest.time.finished {
                Transition::LeaveExcerciseRest
            } else {
                Transition::Stay
            },
        }
    }

    /// The timer one tick later. The workout always counts the second. A tick
    /// that changes the phase counts nothing in the phase it enters; the set
    /// goes on counting through the rests between its exercises.
    pub open spec fn next(self) -> Timer {
        let workout = Workout { time: self.workout.time.advanced(1) };
        match self.transition() {
            Transition::EnterSetRest => Timer {
                workout,
                state: TimerState::InSetRest,
                set: WorkoutSet {
                    time: self.set.time.cleared(),
                    ordinal: (self.set.ordinal + 1) as u32,
                    quantity: self.set.quantity,
                },
                excercise: Excercise {
                    time: self.excercise.time.cleared(),
                    ordinal: next_ordinal(self.excercise.ordinal, self.excercise.quantity),
                    quantity: self.excercise.quantity,
                },
                ..self
            },
            Transition::EnterExcerciseRest => Timer {
                workout,
                state: TimerState::InExcerciseRest,
                set: WorkoutSet { time: self.set.time.advanced(1), ..self.set },
                excercise: Excercise {
                    time: self.excercise.time.cleared(),
                    ordinal: next_ordinal(self.excercise.ordinal, self.excercise.quantity),
                    quantity: self.excercise.quantity,
                },
                ..self
            },
            Transition::LeaveSetRest => Timer {
                workout,
                state: TimerState::InSet,
                set_rest: Rest { time: self.set_rest.time.cleared() },
                ..self
            },
            Transition::LeaveExcerciseRest => Timer {
                workout,
                state: TimerState::InSet,
                set: WorkoutSet { time: self.set.time.advanced(1), ..self.set },
                excercise_rest: Rest { time: self.excercise_rest.time.cleared() },
                ..self
            },
            Transition::Stay => match self.state {
                TimerState::InSet => Timer {
                    workout,
                    set: WorkoutSet { time: self.set.time.advanced(1), ..self.set },
                    excercise: Excercise {
                        time: self.excercise.time.advanced(1),
                        ..self.excercise
                    },
                    ..self
                },
                TimerState::InSetRest => Timer {
                    workout,
                    set_rest: Rest { time: self.set_rest.time.advanced(1) },
                    ..self
                },
                TimerState::InExcerciseRest => Timer {
                    workout,
                    set: WorkoutSet { time: self.set.time.advanced(1), ..self.set },
                    excercise_rest: Rest { time: self.excercise_rest.time.advanced(1) },
                    ..self
                },
            },
        }
    }

    /// Whether the next tick can count one more set: the only number in a
    /// tick that can outgrow its type.
    pub open spec fn can_tick(self) -> bool {
        self.transition() is EnterSetRest ==> self.set.ordinal < u32::MAX
    }

    /// Whether a timer can be made of the five values.
    pub fn is_valid_config(
        excercise_time: u32,
        excercise_quantity: u32,
        excercise_rest_time: u32,
        set_quantity: u32,
        set_rest_time: u32,
    ) -> (valid: bool)
        ensures
            valid == valid_config(
                excercise_time,
                excercise_quantity,
                excercise_rest_time,
                set_quantity,
                set_rest_time,
            ),
    {
        if excercise_time == 0 || excercise_quantity == 0 || excercise_rest_time == 0
            || set_quantity == 0 || set_rest_time == 0 {
            return false;
        }
        let e = excercise_time as u128;
        let q = excercise_quantity as u128;
        let r = excercise_rest_time as u128;
        let s = set_quantity as u128;
        let sr = set_rest_time as u128;
        assert(q * e <= 0x1_0000_0000 * 0x1_0000_0000 && (q - 1) * r <= 0x1_0000_0000
            * 0x1_0000_0000) by (nonlinear_arith)
            requires
                1 <= q < 0x1_0000_0000,
                e < 0x1_0000_0000,
                r < 0x1_0000_0000,
        ;
        let set_time: u128 = q * e + (q - 1) * r + (2 * q - 2);
        assert(s * set_time <= 0x1_0000_0000 * 0x4_0000_0000_0000_0000 && (s - 1) * sr
            <= 0x1_0000_0000 * 0x1_0000_0000) by (nonlinear_arith)
            requires
                1 <= s < 0x1_0000_0000,
                set_time < 0x4_0000_0000_0000_0000,
                sr < 0x1_0000_0000,
        ;
        let total_time: u128 = s * set_time + (s - 1) * sr + (2 * s - 2);
        total_time <= u32::MAX as u128
    }

    /// The timer at the start of the workout that the five values describe.
    pub fn new(
        excercise_time: u32,
        excercise_quantity: u32,
        excercise_rest_time: u32,
        set_quantity: u32,
        set_rest_time: u32,
    ) -> (timer: Timer)
        requires
            valid_config(
                excercise_time,
                excercise_quantity,
                excercise_rest_time,
                set_quantity,
                set_rest_time,
            ),
        ensures
            timer == Timer::initial(
                excercise_time,
                excercise_quantity,
                excercise_rest_time,
                set_quantity,
                set_rest_time,
            ),
            timer.set.time.max == set_time(
                excercise_time as int,
                excercise_quantity as int,
                excercise_rest_time as int,
            ),
            timer.workout.time.max == total_time(
                excercise_time as int,
                excercise_quantity as int,
                excercise_rest_time as int,
                set_quantity as int,
                set_rest_time as int,
            ),
            timer.wf(),
            timer.on_schedule(),
            timer.can_tick(),
    {
        proof {
            lemma_config_bounds(
                excercise_time as int,
                excercise_quantity as int,
                excercise_rest_time as int,
                set_quantity as int,
                set_rest_time as int,
            );
            Timer::lemma_initial_on_schedule(
                excercise_time,
                excercise_quantity,
                excercise_rest_time,
                set_quantity,
                set_rest_time,
            );
        }
        let mut transitions: u32 = 2 * excercise_quantity - 2;
        let set_time: u32 = excercise_quantity * excercise_time + (excercise_quantity - 1)
            * excercise_rest_time + transitions;
        transitions = 2 * set_quantity - 2;
        let max_time: u32 = set_quantity * set_time + (set_quantity - 1) * set_rest_time
            + transitions;
        Timer {
            workout: Workout::new(max_time),
            set: WorkoutSet::new(set_time, set_quantity),
            set_rest: Rest::new(set_rest_time),
            excercise: Excercise::new(excercise_time, excercise_quantity),
            excercise_rest: Rest::new(excercise_rest_time),
            state: TimerState::InSet,
        }
    }

    /// Whether the timer is well formed and can be ticked.
    pub fn is_ready(&self) -> (ready: bool)
        ensures
            ready == (self.wf() && self.can_tick()),
    {
        self.workout.time.is_well_formed() && self.set.time.is_well_formed() && self.set.ordinal
            >= 1 && self.set_rest.time.is_well_formed() && self.excercise.time.is_well_formed()
            && self.excercise.ordinal >= 1 && self.excercise.ordinal <= self.excercise.quantity
            && self.excercise_rest.time.is_well_formed() && !(self.state == TimerState::InSet
            && self.set.time.finished && self.set.ordinal == u32::MAX)
    }

    /// Advances the timer by one second: first the change of phase that is
    /// due, then the counting. A workout that is over stays as it is, while
    /// the phases below it go on; on schedule, the tick keeps the timer
    /// there until the workout is over.
    pub fn on_tick(&mut self)
        requires
            old(self).wf(),
            old(self).can_tick(),
        ensures
            *final(self) == old(self).next(),
            final(self).wf(),
            old(self).workout.time.finished ==> final(self).workout == old(self).workout,
            old(self).set.ordinal <= final(self).set.ordinal <= old(self).set.ordinal + 1,
            1 <= final(self).excercise.ordinal <= final(self).excercise.quantity,
            old(self).is_running() ==> final(self).on_schedule(),
            old(self).is_running() ==> final(self).can_tick(),
            old(self).is_running() ==> final(self).workout.time.current
                == old(self).workout.time.current + 1,
            old(self).is_running() ==> final(self).set.ordinal <= final(self).set.quantity,
    {
        proof {
            if self.is_running() {
                self.lemma_next_on_schedule();
                self.next().lemma_on_schedule_can_tick();
            }
        }
        let mut set_increment: u32 = 1;
        let mut set_rest_increment: u32 = 1;
        let mut excercise_increment: u32 = 1;
        let mut excercise_rest_increment: u32 = 1;
        if self.state == TimerState::InSet && self.set.time.finished {
            self.state = TimerState::InSetRest;
            self.set.clear();
            self.set.increment();
            self.excercise.clear();
            self.excercise.increment();
            set_rest_increment = 0;
        } else if self.state == TimerState::InSet && self.excercise.time.finished {
            self.state = TimerState::InExcerciseRest;
            self.excercise.clear();
            self.excercise.increment();
            excercise_rest_increment = 0;
        } else if self.state == TimerState::InSetRest && self.set_rest.time.finished {
            self.state = TimerState::InSet;
            self.set_rest.clear();
            set_increment = 0;
            excercise_increment = 0;
        } else if self.state == TimerState::InExcerciseRest && self.excercise_rest.time.finished {
            self.state = TimerState::InSet;
            self.excercise_rest.clear();
            excercise_increment = 0;
        }
        self.workout.on_tick();
        if self.state == TimerState::InSet {
            self.set.on_tick(set_increment);
            self.excercise.on_tick(excercise_increment);
        }
        if self.state == TimerState::InSetRest {
            self.set_rest.on_tick(set_rest_increment);
        }
        if self.state == TimerState::InExcerciseRest {
            self.set.on_tick(set_increment);
            self.excercise_rest.on_tick(excercise_rest_increment);
        }
    }
}

} // verus!
