//! Where a timer stands in its workout: the invariant that holds from the
//! first tick to the last, and what follows from it.

use vstd::prelude::*;
use crate::countdown::lemma_percent_range;
use crate::timer::{
    lemma_config_bounds, set_time, total_time, valid_config, Timer, TimerState, Transition,
};

verus! {

/// The seconds from the start of one exercise to the start of the next one
/// in the same set: the exercise, the rest, and the two seconds spent on
/// entering and leaving the rest.
pub open spec fn cycle_time(excercise_time: int, excercise_rest_time: int) -> int {
    excercise_time + excercise_rest_time + 2
}

/// The seconds from the start of one set to the start of the next one: the
/// set, the rest, and the two seconds spent on entering and leaving the rest.
pub open spec fn period_time(set_time: int, set_rest_time: int) -> int {
    set_time + set_rest_time + 2
}

proof fn lemma_mul_succ(a: int, m: int)
    ensures
        (a + 1) * m == a * m + m,
        (a - 1) * m == a * m - m,
{
    assert((a + 1) * m == a * m + m) by (nonlinear_arith);
    assert((a - 1) * m == a * m - m) by (nonlinear_arith);
}

proof fn lemma_mul_le(a: int, b: int, m: int)
    requires
        a <= b,
        0 <= m,
    ensures
        a * m <= b * m,
{
    assert(a * m <= b * m) by (nonlinear_arith)
        requires
            a <= b,
            0 <= m,
    ;
}

/// Of two numbers, each a multiple of `m` plus less than `m`, the smaller
/// one has the smaller multiple, or the same multiple and the smaller rest.
proof fn lemma_multiple_order(a: int, x: int, b: int, y: int, m: int)
    requires
        0 <= x < m,
        0 <= y < m,
        a * m + x <= b * m + y,
    ensures
        a <= b,
        a == b ==> x <= y,
{
    if a > b {
        lemma_mul_le(b + 1, a, m);
        lemma_mul_succ(b, m);
    }
}

/// A set is as many cycles as it has exercises but one, and one exercise.
pub proof fn lemma_set_time_in_cycles(e: int, q: int, r: int)
    ensures
        set_time(e, q, r) == (q - 1) * cycle_time(e, r) + e,
{
    assert(q * e + (q - 1) * r + (2 * q - 2) == (q - 1) * (e + r + 2) + e) by (nonlinear_arith);
}

/// A workout is as many periods as it has sets but one, and one set.
pub proof fn lemma_total_time_in_periods(e: int, q: int, r: int, s: int, sr: int)
    ensures
        total_time(e, q, r, s, sr) == (s - 1) * period_time(set_time(e, q, r), sr) + set_time(
            e,
            q,
            r,
        ),
{
    let st = set_time(e, q, r);
    assert(s * st + (s - 1) * sr + (2 * s - 2) == (s - 1) * (st + sr + 2) + st)
        by (nonlinear_arith);
}

impl Timer {
    /// The timer is where a workout that began at its start has come to.
    ///
    /// The maxima fit together as the durations of one configuration, the set
    /// is one of the workout's sets, and the elapsed times account for each
    /// other: the set's time is that of the exercises and rests done in it,
    /// the workout's time that of the sets and rests done. A phase that is
    /// not running and not waiting to go on stands at zero.
    pub open spec fn on_schedule(self) -> bool {
        let e = self.excercise.time.max as int;
        let q = self.excercise.quantity as int;
        let r = self.excercise_rest.time.max as int;
        let s = self.set.quantity as int;
        let sr = self.set_rest.time.max as int;
        let st = self.set.time.max as int;
        let cycle = cycle_time(e, r);
        let period = period_time(st, sr);
        let eo = self.excercise.ordinal as int;
        let so = self.set.ordinal as int;
        &&& self.wf()
        &&& st == set_time(e, q, r)
        &&& self.workout.time.max == total_time(e, q, r, s, sr)
        &&& 1 <= so <= s
        &&& match self.state {
            TimerState::InSet => {
                &&& self.set_rest.time.current == 0
                &&& self.excercise_rest.time.current == 0
                &&& self.set.time.current == (eo - 1) * cycle + self.excercise.time.current
                &&& self.workout.time.current == (so - 1) * period + self.set.time.current
            },
            TimerState::InExcerciseRest => {
                &&& 2 <= eo
                &&& self.set_rest.time.current == 0
                &&& self.excercise.time.current == 0
                &&& self.set.time.current == (eo - 2) * cycle + e + 1
                    + self.excercise_rest.time.current
                &&& self.workout.time.current == (so - 1) * period + self.set.time.current
            },
            TimerState::InSetRest => {
                &&& 2 <= so
                &&& eo == 1
                &&& self.set.time.current == 0
                &&& self.excercise.time.current == 0
                &&& self.excercise_rest.time.current == 0
                &&& self.workout.time.current == (so - 2) * period + st + 1
                    + self.set_rest.time.current
            },
        }
    }

    /// The timer is on schedule and its workout is not over.
    pub open spec fn is_running(self) -> bool {
        self.on_schedule() && !self.workout.time.finished
    }

    /// The workout is at the end of the last exercise of its last set.
    pub open spec fn at_last_excercise_end(self) -> bool {
        &&& self.state is InSet
        &&& self.set.ordinal == self.set.quantity
        &&& self.set.time.finished
        &&& self.excercise.ordinal == self.excercise.quantity
        &&& self.excercise.time.finished
    }

    /// The timer after `ticks` ticks.
    pub open spec fn after(self, ticks: nat) -> Timer
        decreases ticks,
    {
        if ticks == 0 {
            self
        } else {
            self.after((ticks - 1) as nat).next()
        }
    }

    /// A new timer is on schedule.
    pub proof fn lemma_initial_on_schedule(
        excercise_time: u32,
        excercise_quantity: u32,
        excercise_rest_time: u32,
        set_quantity: u32,
        set_rest_time: u32,
    )
        requires
            valid_config(
                excercise_time,
                excercise_quantity,
                excercise_rest_time,
                set_quantity,
                set_rest_time,
            ),
        ensures
            Timer::initial(
                excercise_time,
                excercise_quantity,
                excercise_rest_time,
                set_quantity,
                set_rest_time,
            ).on_schedule(),
    {
        let e = excercise_time as int;
        let q = excercise_quantity as int;
        let r = excercise_rest_time as int;
        let s = set_quantity as int;
        let sr = set_rest_time as int;
        lemma_config_bounds(e, q, r, s, sr);
    }

    /// While a set is resting between two exercises it is not over.
    proof fn lemma_set_unfinished_in_rest(self)
        requires
            self.on_schedule(),
            self.state is InExcerciseRest,
        ensures
            self.set.time.current + 1 < self.set.time.max,
    {
        let e = self.excercise.time.max as int;
        let q = self.excercise.quantity as int;
        let r = self.excercise_rest.time.max as int;
        let eo = self.excercise.ordinal as int;
        let cycle = cycle_time(e, r);
        lemma_set_time_in_cycles(e, q, r);
        lemma_mul_succ(eo - 2, cycle);
        lemma_mul_le(eo - 1, q - 1, cycle);
    }

    /// A tick of an unfinished workout keeps the timer on schedule, and
    /// counts one second of the workout.
    pub proof fn lemma_next_on_schedule(self)
        requires
            self.is_running(),
        ensures
            self.can_tick(),
            self.next().on_schedule(),
            self.next().workout.time.current == self.workout.time.current + 1,
    {
        let e = self.excercise.time.max as int;
        let q = self.excercise.quantity as int;
        let r = self.excercise_rest.time.max as int;
        let s = self.set.quantity as int;
        let sr = self.set_rest.time.max as int;
        let st = self.set.time.max as int;
        let cycle = cycle_time(e, r);
        let period = period_time(st, sr);
        let eo = self.excercise.ordinal as int;
        let so = self.set.ordinal as int;
        let sc = self.set.time.current as int;
        let ec = self.excercise.time.current as int;
        lemma_set_time_in_cycles(e, q, r);
        lemma_total_time_in_periods(e, q, r, s, sr);
        lemma_percent_range(self.workout.time.current + 1, self.workout.time.max as int);
        match self.transition() {
            Transition::EnterSetRest => {
                // The set is over, so it stands at the end of its last
                // exercise; the workout is not, so this is not its last set.
                lemma_multiple_order(q - 1, e, eo - 1, ec, cycle);
                assert(so < s);
            },
            Transition::EnterExcerciseRest => {
                // The set is not over, so this is not its last exercise.
                assert(eo < q);
                lemma_percent_range(sc + 1, st);
            },
            Transition::LeaveSetRest => {
                // The rest has made the period full: the next set begins.
                lemma_mul_succ(so - 2, period);
                assert((eo - 1) * cycle == 0) by (nonlinear_arith)
                    requires
                        eo == 1,
                ;
            },
            Transition::LeaveExcerciseRest => {
                // The rest has made the cycle full: the next exercise begins.
                self.lemma_set_unfinished_in_rest();
                lemma_percent_range(sc + 1, st);
                lemma_mul_succ(eo - 2, cycle);
            },
            Transition::Stay => {
                match self.state {
                    TimerState::InSet => {
                        lemma_percent_range(sc + 1, st);
                        lemma_percent_range(ec + 1, e);
                    },
                    TimerState::InSetRest => {
                        lemma_percent_range(self.set_rest.time.current + 1, sr);
                    },
                    TimerState::InExcerciseRest => {
                        self.lemma_set_unfinished_in_rest();
                        lemma_percent_range(sc + 1, st);
                        lemma_percent_range(self.excercise_rest.time.current + 1, r);
                    },
                }
            },
        }
    }

    /// A workout on schedule is over exactly when the last exercise of its
    /// last set is: no time is left over and none is missing. And whenever a
    /// set is over, so is the last of its exercises.
    pub proof fn lemma_finished_on_schedule(self)
        requires
            self.on_schedule(),
        ensures
            self.workout.time.finished <==> self.at_last_excercise_end(),
            self.state is InSet && self.set.time.finished ==> self.excercise.time.finished,
            self.state is InSet && self.set.time.finished ==> self.excercise.ordinal
                == self.excercise.quantity,
    {
        let e = self.excercise.time.max as int;
        let q = self.excercise.quantity as int;
        let r = self.excercise_rest.time.max as int;
        let s = self.set.quantity as int;
        let sr = self.set_rest.time.max as int;
        let st = self.set.time.max as int;
        let cycle = cycle_time(e, r);
        let period = period_time(st, sr);
        let eo = self.excercise.ordinal as int;
        let so = self.set.ordinal as int;
        let sc = self.set.time.current as int;
        let ec = self.excercise.time.current as int;
        lemma_set_time_in_cycles(e, q, r);
        lemma_total_time_in_periods(e, q, r, s, sr);
        match self.state {
            TimerState::InSet => {
                if self.set.time.finished {
                    lemma_multiple_order(q - 1, e, eo - 1, ec, cycle);
                }
                if self.workout.time.finished {
                    lemma_multiple_order(s - 1, st, so - 1, sc, period);
                }
            },
            TimerState::InExcerciseRest => {
                self.lemma_set_unfinished_in_rest();
                lemma_mul_le(so - 1, s - 1, period);
            },
            TimerState::InSetRest => {
                lemma_mul_succ(so - 2, period);
                lemma_mul_le(so - 1, s - 1, period);
            },
        }
    }

    /// On schedule no set is counted beyond the quantity, so the next tick
    /// can always count one more.
    pub proof fn lemma_on_schedule_can_tick(self)
        requires
            self.on_schedule(),
        ensures
            self.can_tick(),
            1 <= self.set.ordinal <= self.set.quantity,
            1 <= self.excercise.ordinal <= self.excercise.quantity,
    {
        lemma_config_bounds(
            self.excercise.time.max as int,
            self.excercise.quantity as int,
            self.excercise_rest.time.max as int,
            self.set.quantity as int,
            self.set_rest.time.max as int,
        );
    }

    /// The progress of every phase of a well-formed timer is a percentage,
    /// and it is 100 exactly when the phase is finished.
    pub proof fn lemma_progress_ranges(self)
        requires
            self.wf(),
        ensures
            self.workout.time.progress <= 100,
            self.workout.time.progress == 100 <==> self.workout.time.finished,
            self.set.time.progress <= 100,
            self.set.time.progress == 100 <==> self.set.time.finished,
            self.set_rest.time.progress <= 100,
            self.set_rest.time.progress == 100 <==> self.set_rest.time.finished,
            self.excercise.time.progress <= 100,
            self.excercise.time.progress == 100 <==> self.excercise.time.finished,
            self.excercise_rest.time.progress <= 100,
            self.excercise_rest.time.progress == 100 <==> self.excercise_rest.time.finished,
    {
        self.workout.time.lemma_progress_range();
        self.set.time.lemma_progress_range();
        self.set_rest.time.lemma_progress_range();
        self.excercise.time.lemma_progress_range();
        self.excercise_rest.time.lemma_progress_range();
    }

    /// A finished workout is not changed by further ticks.
    pub proof fn lemma_finished_workout_stays(self, ticks: nat)
        requires
            self.workout.time.finished,
        ensures
            self.after(ticks).workout == self.workout,
        decreases ticks,
    {
        if ticks > 0 {
            self.lemma_finished_workout_stays((ticks - 1) as nat);
        }
    }

    /// Every tick counts one second of the workout until its time is up,
    /// whatever the other phases do.
    pub proof fn lemma_workout_after(self, ticks: nat)
        requires
            self.workout.wf(),
        ensures
            self.after(ticks).workout.wf(),
            self.after(ticks).workout.time.max == self.workout.time.max,
            self.after(ticks).workout.time.current == if self.workout.time.current + ticks
                <= self.workout.time.max {
                self.workout.time.current + ticks
            } else {
                self.workout.time.max as int
            },
        decreases ticks,
    {
        if ticks > 0 {
            let before = self.after((ticks - 1) as nat);
            self.lemma_workout_after((ticks - 1) as nat);
            if !before.workout.time.finished {
                lemma_percent_range(
                    before.workout.time.current + 1,
                    before.workout.time.max as int,
                );
            }
        }
    }

    /// A tick leaves the number of the set as it is or counts one more.
    pub proof fn lemma_set_ordinal_step(self)
        requires
            self.can_tick(),
        ensures
            self.next().set.quantity == self.set.quantity,
            self.next().set.ordinal == if self.transition() is EnterSetRest {
                self.set.ordinal + 1
            } else {
                self.set.ordinal as int
            },
    {
    }

    /// A tick leaves the number of the exercise as it is, or goes on to the
    /// next exercise when the running one is over; after the last exercise
    /// of a set comes the first.
    pub proof fn lemma_excercise_ordinal_step(self)
        requires
            self.wf(),
        ensures
            self.next().excercise.quantity == self.excercise.quantity,
            1 <= self.next().excercise.ordinal <= self.excercise.quantity,
            self.next().excercise.ordinal == if self.transition() is EnterSetRest
                || self.transition() is EnterExcerciseRest {
                if self.excercise.ordinal == self.excercise.quantity {
                    1
                } else {
                    self.excercise.ordinal + 1
                }
            } else {
                self.excercise.ordinal as int
            },
    {
    }
}

/// A workout that is run from its start stays on schedule up to its total
/// time, and has then counted as many seconds as there were ticks.
pub proof fn lemma_run_on_schedule(
    excercise_time: u32,
    excercise_quantity: u32,
    excercise_rest_time: u32,
    set_quantity: u32,
    set_rest_time: u32,
    ticks: nat,
)
    requires
        valid_config(
            excercise_time,
            excercise_quantity,
            excercise_rest_time,
            set_quantity,
            set_rest_time,
        ),
        ticks <= total_time(
            excercise_time as int,
            excercise_quantity as int,
            excercise_rest_time as int,
            set_quantity as int,
            set_rest_time as int,
        ),
    ensures
        ({
            let timer = Timer::initial(
                excercise_time,
                excercise_quantity,
                excercise_rest_time,
                set_quantity,
                set_rest_time,
            ).after(ticks);
            &&& timer.on_schedule()
            &&& timer.workout.time.current == ticks
            &&& timer.excercise.time.max == excercise_time
            &&& timer.excercise.quantity == excercise_quantity
            &&& timer.excercise_rest.time.max == excercise_rest_time
            &&& timer.set.quantity == set_quantity
            &&& timer.set_rest.time.max == set_rest_time
        }),
    decreases ticks,
{
    let start = Timer::initial(
        excercise_time,
        excercise_quantity,
        excercise_rest_time,
        set_quantity,
        set_rest_time,
    );
    if ticks == 0 {
        Timer::lemma_initial_on_schedule(
            excercise_time,
            excercise_quantity,
            excercise_rest_time,
            set_quantity,
            set_rest_time,
        );
    } else {
        lemma_run_on_schedule(
            excercise_time,
            excercise_quantity,
            excercise_rest_time,
            set_quantity,
            set_rest_time,
            (ticks - 1) as nat,
        );
        start.after((ticks - 1) as nat).lemma_next_on_schedule();
    }
}

/// The total time is the number of ticks that a workout takes: run from its
/// start, it is finished after that many ticks, not before, and ever after.
pub proof fn lemma_total_time_is_run_length(
    excercise_time: u32,
    excercise_quantity: u32,
    excercise_rest_time: u32,
    set_quantity: u32,
    set_rest_time: u32,
    ticks: nat,
)
    requires
        valid_config(
            excercise_time,
            excercise_quantity,
            excercise_rest_time,
            set_quantity,
            set_rest_time,
        ),
    ensures
        Timer::initial(
            excercise_time,
            excercise_quantity,
            excercise_rest_time,
            set_quantity,
            set_rest_time,
        ).after(ticks).workout.time.finished <==> ticks >= total_time(
            excercise_time as int,
            excercise_quantity as int,
            excercise_rest_time as int,
            set_quantity as int,
            set_rest_time as int,
        ),
{
    let start = Timer::initial(
        excercise_time,
        excercise_quantity,
        excercise_rest_time,
        set_quantity,
        set_rest_time,
    );
    Timer::lemma_initial_on_schedule(
        excercise_time,
        excercise_quantity,
        excercise_rest_time,
        set_quantity,
        set_rest_time,
    );
    start.lemma_workout_after(ticks);
}

/// The sets of a workout are counted upwards: run from its start up to its
/// total time, a later tick never shows an earlier set, and none beyond the
/// quantity.
pub proof fn lemma_set_ordinal_monotone(
    excercise_time: u32,
    excercise_quantity: u32,
    excercise_rest_time: u32,
    set_quantity: u32,
    set_rest_time: u32,
    earlier: nat,
    later: nat,
)
    requires
        valid_config(
            excercise_time,
            excercise_quantity,
            excercise_rest_time,
            set_quantity,
            set_rest_time,
        ),
        earlier <= later <= total_time(
            excercise_time as int,
            excercise_quantity as int,
            excercise_rest_time as int,
            set_quantity as int,
            set_rest_time as int,
        ),
    ensures
        ({
            let start = Timer::initial(
                excercise_time,
                excercise_quantity,
                excercise_rest_time,
                set_quantity,
                set_rest_time,
            );
            1 <= start.after(earlier).set.ordinal <= start.after(later).set.ordinal
                <= set_quantity
        }),
    decreases later,
{
    let start = Timer::initial(
        excercise_time,
        excercise_quantity,
        excercise_rest_time,
        set_quantity,
        set_rest_time,
    );
    lemma_run_on_schedule(
        excercise_time,
        excercise_quantity,
        excercise_rest_time,
        set_quantity,
        set_rest_time,
        later,
    );
    if earlier < later {
        let before = start.after((later - 1) as nat);
        lemma_set_ordinal_monotone(
            excercise_time,
            excercise_quantity,
            excercise_rest_time,
            set_quantity,
            set_rest_time,
            earlier,
            (later - 1) as nat,
        );
        lemma_run_on_schedule(
            excercise_time,
            excercise_quantity,
            excercise_rest_time,
            set_quantity,
            set_rest_time,
            (later - 1) as nat,
        );
        before.lemma_next_on_schedule();
        before.lemma_set_ordinal_step();
    }
}

} // verus!
