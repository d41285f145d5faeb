use workout_timer::display::{GaugeKind, GaugeView};
use workout_timer::timer::{Timer, TimerState};

fn after(ticks: u32) -> Timer {
    let mut timer = Timer::new(10, 2, 5, 2, 10);
    let mut done = 0;
    while done < ticks {
        timer.on_tick();
        done += 1;
    }
    timer
}

fn gauge(kind: GaugeKind, row: usize, title: &str, percent: u16, label: &str) -> GaugeView {
    GaugeView { kind, row, title: String::from(title), percent, label: String::from(label) }
}

#[test]
fn gauges_in_a_set_show_workout_set_and_excercise() {
    let timer = after(4);
    assert_eq!(timer.state, TimerState::InSet);
    assert_eq!(
        timer.gauges(),
        vec![
            gauge(GaugeKind::FullWorkout, 0, "Full Workout Timer", 6, "00:00:04/00:01:06"),
            gauge(GaugeKind::CurrentSet, 1, "Set 1/2 Timer", 14, "00:00:04/00:00:27"),
            gauge(GaugeKind::CurrentExcercise, 2, "Excercise 1/2 Timer", 40, "00:00:04/00:00:10"),
        ]
    );
}

#[test]
fn gauges_in_the_rest_between_excercises_show_the_set_and_the_rest() {
    let timer = after(13);
    assert_eq!(timer.state, TimerState::InExcerciseRest);
    assert_eq!(
        timer.gauges(),
        vec![
            gauge(GaugeKind::FullWorkout, 0, "Full Workout Timer", 19, "00:00:13/00:01:06"),
            gauge(GaugeKind::CurrentSet, 1, "Set 1/2 Timer", 48, "00:00:13/00:00:27"),
            gauge(GaugeKind::ExcerciseRest, 2, "Excercise Rest Timer", 40, "00:00:02/00:00:05"),
        ]
    );
}

#[test]
fn gauges_in_the_rest_between_sets_show_only_the_rest_below_the_workout() {
    let timer = after(33);
    assert_eq!(timer.state, TimerState::InSetRest);
    assert_eq!(
        timer.gauges(),
        vec![
            gauge(GaugeKind::FullWorkout, 0, "Full Workout Timer", 50, "00:00:33/00:01:06"),
            gauge(GaugeKind::SetRest, 1, "Set Rest Timer", 50, "00:00:05/00:00:10"),
        ]
    );
}

#[test]
fn gauges_at_the_end_are_full() {
    let timer = after(66);
    assert_eq!(
        timer.gauges(),
        vec![
            gauge(GaugeKind::FullWorkout, 0, "Full Workout Timer", 100, "00:01:06/00:01:06"),
            gauge(GaugeKind::CurrentSet, 1, "Set 2/2 Timer", 100, "00:00:27/00:00:27"),
            gauge(GaugeKind::CurrentExcercise, 2, "Excercise 2/2 Timer", 100, "00:00:10/00:00:10"),
        ]
    );
}

#[test]
fn gauges_are_never_filled_beyond_a_hundred_percent() {
    let mut timer = Timer::new(3, 3, 2, 3, 4);
    let mut ticks = 0;
    while ticks < 120 {
        let gauges = timer.gauges();
        assert!(gauges.len() == 2 || gauges.len() == 3);
        assert_eq!(gauges.len() == 2, timer.state == TimerState::InSetRest);
        let mut row = 0;
        for gauge in gauges {
            assert!(gauge.percent <= 100);
            assert_eq!(gauge.row, row);
            row += 1;
        }
        timer.on_tick();
        ticks += 1;
    }
}
