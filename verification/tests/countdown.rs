use workout_timer::countdown::Countdown;
use workout_timer::phases::{Excercise, Rest, Workout, WorkoutSet};

#[test]
fn new_countdown_stands_at_zero() {
    let countdown = Countdown::new(10);
    assert_eq!(countdown, Countdown { current: 0, max: 10, progress: 0, finished: false });
    assert!(countdown.is_well_formed());
}

#[test]
fn advance_counts_and_rounds_the_percentage_down() {
    let mut countdown = Countdown::new(3);
    countdown.advance(1);
    assert_eq!(countdown, Countdown { current: 1, max: 3, progress: 33, finished: false });
    countdown.advance(1);
    assert_eq!(countdown, Countdown { current: 2, max: 3, progress: 66, finished: false });
    countdown.advance(1);
    assert_eq!(countdown, Countdown { current: 3, max: 3, progress: 100, finished: true });
}

#[test]
fn advance_by_zero_changes_nothing() {
    let mut countdown = Countdown::new(7);
    countdown.advance(0);
    assert_eq!(countdown, Countdown { current: 0, max: 7, progress: 0, finished: false });
    countdown.advance(4);
    let before = countdown;
    countdown.advance(0);
    assert_eq!(countdown, before);
    assert!(!countdown.finished);
}

#[test]
fn advance_after_the_end_changes_nothing() {
    let mut countdown = Countdown::new(2);
    countdown.advance(2);
    assert!(countdown.finished);
    let before = countdown;
    countdown.advance(1);
    assert_eq!(countdown, before);
    countdown.advance(0);
    assert_eq!(countdown, before);
}

#[test]
fn advance_by_several_seconds_up_to_the_end() {
    let mut countdown = Countdown::new(600);
    countdown.advance(599);
    assert_eq!(countdown, Countdown { current: 599, max: 600, progress: 99, finished: false });
    countdown.advance(1);
    assert_eq!(countdown, Countdown { current: 600, max: 600, progress: 100, finished: true });
}

#[test]
fn percentage_of_the_longest_countdown_does_not_overflow() {
    let mut countdown = Countdown::new(u32::MAX);
    countdown.advance(u32::MAX - 1);
    assert_eq!(countdown.progress, 99);
    assert!(!countdown.finished);
    countdown.advance(1);
    assert_eq!(countdown.progress, 100);
    assert!(countdown.finished);
}

#[test]
fn reset_starts_over_with_the_same_maximum() {
    let mut countdown = Countdown::new(4);
    countdown.advance(4);
    countdown.reset();
    assert_eq!(countdown, Countdown { current: 0, max: 4, progress: 0, finished: false });
    countdown.advance(1);
    assert_eq!(countdown.progress, 25);
}

#[test]
fn progress_is_a_percentage_and_full_only_at_the_end() {
    let mut max: u32 = 1;
    while max <= 120 {
        let mut countdown = Countdown::new(max);
        let mut second: u32 = 0;
        while second <= max + 2 {
            assert!(countdown.progress <= 100);
            assert_eq!(countdown.progress == 100, countdown.finished);
            assert_eq!(countdown.finished, countdown.current == countdown.max);
            assert_eq!(u32::from(countdown.progress), countdown.current * 100 / max);
            assert!(countdown.is_well_formed());
            countdown.advance(1);
            second += 1;
        }
        max += 1;
    }
}

#[test]
fn ill_formed_countdowns_are_told_apart() {
    assert!(!Countdown { current: 0, max: 0, progress: 0, finished: false }.is_well_formed());
    assert!(!Countdown { current: 5, max: 4, progress: 125, finished: false }.is_well_formed());
    assert!(!Countdown { current: 1, max: 4, progress: 30, finished: false }.is_well_formed());
    assert!(!Countdown { current: 4, max: 4, progress: 100, finished: false }.is_well_formed());
    assert!(!Countdown { current: 1, max: 4, progress: 25, finished: true }.is_well_formed());
    assert!(Countdown { current: 1, max: 4, progress: 25, finished: false }.is_well_formed());
}

#[test]
fn excercise_ordinal_cycles_through_the_quantity() {
    let mut excercise = Excercise::new(10, 3);
    let mut seen = Vec::new();
    let mut step = 0;
    while step < 7 {
        seen.push(excercise.ordinal);
        excercise.increment();
        step += 1;
    }
    assert_eq!(seen, vec![1, 2, 3, 1, 2, 3, 1]);
    assert_eq!(excercise.quantity, 3);
}

#[test]
fn excercise_ordinal_of_a_single_excercise_stays_one() {
    let mut excercise = Excercise::new(10, 1);
    excercise.increment();
    assert_eq!(excercise.ordinal, 1);
    excercise.increment();
    assert_eq!(excercise.ordinal, 1);
}

#[test]
fn excercise_ordinal_wraps_at_the_largest_quantity() {
    let mut excercise = Excercise { time: Countdown::new(1), ordinal: u32::MAX, quantity: u32::MAX };
    excercise.increment();
    assert_eq!(excercise.ordinal, 1);
}

#[test]
fn set_ordinal_does_not_wrap() {
    let mut set = WorkoutSet::new(27, 2);
    assert_eq!(set.ordinal, 1);
    set.increment();
    assert_eq!(set.ordinal, 2);
    set.increment();
    assert_eq!(set.ordinal, 3);
    assert_eq!(set.quantity, 2);
}

#[test]
fn clear_keeps_the_ordinal() {
    let mut set = WorkoutSet::new(3, 2);
    set.on_tick(1);
    set.increment();
    set.clear();
    assert_eq!(set, WorkoutSet { time: Countdown::new(3), ordinal: 2, quantity: 2 });
    let mut excercise = Excercise::new(3, 2);
    excercise.on_tick(1);
    excercise.on_tick(1);
    excercise.on_tick(1);
    assert!(excercise.time.finished);
    excercise.increment();
    excercise.clear();
    assert_eq!(excercise, Excercise { time: Countdown::new(3), ordinal: 2, quantity: 2 });
    let mut rest = Rest::new(2);
    rest.on_tick(1);
    rest.clear();
    assert_eq!(rest, Rest { time: Countdown::new(2) });
}

#[test]
fn workout_counts_one_second_a_tick_and_stops() {
    let mut workout = Workout::new(2);
    workout.on_tick();
    assert_eq!(workout.time, Countdown { current: 1, max: 2, progress: 50, finished: false });
    workout.on_tick();
    assert_eq!(workout.time, Countdown { current: 2, max: 2, progress: 100, finished: true });
    workout.on_tick();
    assert_eq!(workout.time, Countdown { current: 2, max: 2, progress: 100, finished: true });
}
