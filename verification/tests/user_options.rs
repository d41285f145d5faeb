use std::collections::HashMap;
use workout_timer::control::Key;
use workout_timer::timer::Timer;
use workout_timer::user_options::{
    get_default, make_timer, on_key, option_lines, KeyOutcome, Option, OptionLine,
    EXCERCISE_QUANTITY_KEY, EXCERCISE_REST_TIME_KEY, EXCERCISE_TIME_KEY, OPTION_COUNT,
    SET_QUANTITY_KEY, SET_REST_TIME_KEY,
};

fn option(name: &str, value: u32, max: u32) -> Option {
    Option { name: String::from(name), value, max }
}

fn press(options: &mut HashMap<u8, Option>, index: &mut usize, keys: &[Key]) {
    for key in keys {
        assert_eq!(on_key(options, index, *key), KeyOutcome::Continue);
    }
}

#[test]
fn option_keys_are_the_first_five_numbers() {
    assert_eq!(
        [
            EXCERCISE_TIME_KEY,
            EXCERCISE_QUANTITY_KEY,
            EXCERCISE_REST_TIME_KEY,
            SET_QUANTITY_KEY,
            SET_REST_TIME_KEY,
        ],
        [0, 1, 2, 3, 4]
    );
    assert_eq!(OPTION_COUNT, 5);
}

#[test]
fn default_options_have_their_names_values_and_limits() {
    let options = get_default();
    assert_eq!(options.len(), 5);
    assert_eq!(options[&EXCERCISE_TIME_KEY], option("Excercise time in seconds", 45, 600));
    assert_eq!(
        options[&EXCERCISE_QUANTITY_KEY],
        option("Number of excercises per onse set", 10, 20)
    );
    assert_eq!(
        options[&EXCERCISE_REST_TIME_KEY],
        option("Rest time between excercises in seconds", 15, 600)
    );
    assert_eq!(options[&SET_QUANTITY_KEY], option("Number of sets", 3, 20));
    assert_eq!(options[&SET_REST_TIME_KEY], option("Rest time between sets in seconds", 120, 600));
}

#[test]
fn default_options_make_a_valid_timer() {
    let options = get_default();
    assert!(Timer::is_valid_config(
        options[&EXCERCISE_TIME_KEY].value,
        options[&EXCERCISE_QUANTITY_KEY].value,
        options[&EXCERCISE_REST_TIME_KEY].value,
        options[&SET_QUANTITY_KEY].value,
        options[&SET_REST_TIME_KEY].value,
    ));
    assert!(Timer::is_valid_config(600, 20, 600, 20, 600));
    assert_eq!(make_timer(&options), Some(Timer::new(45, 10, 15, 3, 120)));
}

#[test]
fn timer_is_made_of_the_values_under_their_keys() {
    let mut options = get_default();
    options.insert(EXCERCISE_TIME_KEY, option("a", 10, 600));
    options.insert(EXCERCISE_QUANTITY_KEY, option("b", 2, 20));
    options.insert(EXCERCISE_REST_TIME_KEY, option("c", 5, 600));
    options.insert(SET_QUANTITY_KEY, option("d", 3, 20));
    options.insert(SET_REST_TIME_KEY, option("e", 7, 600));
    let timer = make_timer(&options).unwrap();
    assert_eq!(timer, Timer::new(10, 2, 5, 3, 7));
    assert_eq!(timer.excercise.time.max, 10);
    assert_eq!(timer.excercise.quantity, 2);
    assert_eq!(timer.excercise_rest.time.max, 5);
    assert_eq!(timer.set.quantity, 3);
    assert_eq!(timer.set_rest.time.max, 7);
    assert_eq!(timer.set.time.max, 27);
    assert_eq!(timer.workout.time.max, 99);
}

#[test]
fn largest_values_of_the_options_make_a_timer() {
    let mut options = get_default();
    let mut index = 0;
    while index < OPTION_COUNT {
        let mut presses = 0;
        while presses < 600 {
            press(&mut options, &mut index, &[Key::Right]);
            presses += 1;
        }
        index += 1;
    }
    let timer = make_timer(&options).unwrap();
    assert_eq!(timer, Timer::new(600, 20, 600, 20, 600));
    assert_eq!(timer.set.time.max, 23_438);
    assert_eq!(timer.workout.time.max, 480_198);
}

#[test]
fn no_timer_is_made_of_a_value_of_zero_or_of_too_long_a_workout() {
    let mut options = get_default();
    options.insert(SET_QUANTITY_KEY, option("Number of sets", 0, 20));
    assert_eq!(make_timer(&options), None);
    let mut options = get_default();
    options.insert(EXCERCISE_TIME_KEY, option("Excercise time in seconds", u32::MAX, u32::MAX));
    assert_eq!(make_timer(&options), None);
}

#[test]
fn enter_accepts_and_changes_nothing() {
    let mut options = get_default();
    let mut index = 2;
    assert_eq!(on_key(&mut options, &mut index, Key::Enter), KeyOutcome::Accept);
    assert_eq!(index, 2);
    assert_eq!(options, get_default());
}

#[test]
fn q_quits_and_changes_nothing() {
    let mut options = get_default();
    let mut index = 4;
    assert_eq!(on_key(&mut options, &mut index, Key::Char('q')), KeyOutcome::Quit);
    assert_eq!(index, 4);
    assert_eq!(options, get_default());
}

#[test]
fn down_and_up_move_the_active_line_within_the_screen() {
    let mut options = get_default();
    let mut index = 0;
    press(&mut options, &mut index, &[Key::Up]);
    assert_eq!(index, 0);
    press(&mut options, &mut index, &[Key::Down]);
    assert_eq!(index, 1);
    press(&mut options, &mut index, &[Key::Char('s'), Key::Down, Key::Char('s')]);
    assert_eq!(index, 4);
    press(&mut options, &mut index, &[Key::Down, Key::Char('s')]);
    assert_eq!(index, 4);
    press(&mut options, &mut index, &[Key::Up, Key::Char('w')]);
    assert_eq!(index, 2);
    press(&mut options, &mut index, &[Key::Char('w'), Key::Up, Key::Char('w')]);
    assert_eq!(index, 0);
    assert_eq!(options, get_default());
}

#[test]
fn left_and_right_change_the_value_of_the_active_option() {
    let mut options = get_default();
    let mut index = 0;
    press(&mut options, &mut index, &[Key::Right, Key::Char('d'), Key::Right]);
    assert_eq!(options[&EXCERCISE_TIME_KEY], option("Excercise time in seconds", 48, 600));
    press(&mut options, &mut index, &[Key::Left, Key::Char('a')]);
    assert_eq!(options[&EXCERCISE_TIME_KEY].value, 46);
    assert_eq!(index, 0);
    index = 3;
    press(&mut options, &mut index, &[Key::Char('a')]);
    assert_eq!(options[&SET_QUANTITY_KEY], option("Number of sets", 2, 20));
    let mut expected = get_default();
    expected.insert(EXCERCISE_TIME_KEY, option("Excercise time in seconds", 46, 600));
    expected.insert(SET_QUANTITY_KEY, option("Number of sets", 2, 20));
    assert_eq!(options, expected);
}

#[test]
fn value_does_not_fall_below_one() {
    let mut options = get_default();
    let mut index = 3;
    press(&mut options, &mut index, &[Key::Left, Key::Left]);
    assert_eq!(options[&SET_QUANTITY_KEY].value, 1);
    press(&mut options, &mut index, &[Key::Left, Key::Char('a')]);
    assert_eq!(options[&SET_QUANTITY_KEY], option("Number of sets", 1, 20));
    press(&mut options, &mut index, &[Key::Right]);
    assert_eq!(options[&SET_QUANTITY_KEY].value, 2);
}

#[test]
fn value_does_not_rise_above_the_largest() {
    let mut options = get_default();
    let mut index = 1;
    let mut presses = 0;
    while presses < 25 {
        press(&mut options, &mut index, &[Key::Right]);
        presses += 1;
    }
    assert_eq!(
        options[&EXCERCISE_QUANTITY_KEY],
        option("Number of excercises per onse set", 20, 20)
    );
    press(&mut options, &mut index, &[Key::Char('d')]);
    assert_eq!(options[&EXCERCISE_QUANTITY_KEY].value, 20);
    press(&mut options, &mut index, &[Key::Left]);
    assert_eq!(options[&EXCERCISE_QUANTITY_KEY].value, 19);
}

#[test]
fn value_of_zero_can_only_be_raised() {
    let mut options = get_default();
    options.insert(SET_REST_TIME_KEY, option("Rest time between sets in seconds", 0, 600));
    let mut index = 4;
    press(&mut options, &mut index, &[Key::Left]);
    assert_eq!(options[&SET_REST_TIME_KEY].value, 0);
    press(&mut options, &mut index, &[Key::Right]);
    assert_eq!(options[&SET_REST_TIME_KEY].value, 1);
}

#[test]
fn other_keys_do_nothing() {
    let mut options = get_default();
    let mut index = 1;
    press(
        &mut options,
        &mut index,
        &[Key::Other, Key::Char('x'), Key::Char('Q'), Key::Char('W'), Key::Char(' ')],
    );
    assert_eq!(index, 1);
    assert_eq!(options, get_default());
}

#[test]
fn lines_show_name_and_value_and_mark_the_active_one() {
    let options = get_default();
    let lines = option_lines(&options, 1);
    assert_eq!(
        lines,
        vec![
            OptionLine { text: String::from("Excercise time in seconds: 45"), active: false },
            OptionLine { text: String::from("Number of excercises per onse set: 10"), active: true },
            OptionLine {
                text: String::from("Rest time between excercises in seconds: 15"),
                active: false,
            },
            OptionLine { text: String::from("Number of sets: 3"), active: false },
            OptionLine { text: String::from("Rest time between sets in seconds: 120"), active: false },
        ]
    );
}

#[test]
fn lines_follow_the_changes() {
    let mut options = get_default();
    let mut index = 0;
    press(&mut options, &mut index, &[Key::Left, Key::Down, Key::Down, Key::Right]);
    let lines = option_lines(&options, index);
    assert_eq!(lines.len(), 5);
    assert_eq!(lines[0].text, "Excercise time in seconds: 44");
    assert_eq!(lines[2].text, "Rest time between excercises in seconds: 16");
    let active: Vec<bool> = lines.iter().map(|line| line.active).collect();
    assert_eq!(active, vec![false, false, true, false, false]);
}

#[test]
fn lines_without_an_active_one() {
    let lines = option_lines(&get_default(), 9);
    assert_eq!(lines.len(), 5);
    assert!(lines.iter().all(|line| !line.active));
}
