//! The options of a workout that a user can change, and what the keys do to
//! them while they are shown.

use std::collections::HashMap;
use vstd::prelude::*;
use crate::control::Key;
use crate::time_text::{decimal_text, push_decimal};
use crate::timer::{set_time, total_time, valid_config, Timer};

verus! {

broadcast use vstd::std_specs::hash::group_hash_axioms;

/// The key of the option that holds the seconds of one exercise.
pub const EXCERCISE_TIME_KEY: u8 = 0;

/// The key of the option that holds the number of exercises in a set.
pub const EXCERCISE_QUANTITY_KEY: u8 = 1;

/// The key of the option that holds the seconds of rest between exercises.
pub const EXCERCISE_REST_TIME_KEY: u8 = 2;

/// The key of the option that holds the number of sets.
pub const SET_QUANTITY_KEY: u8 = 3;

/// The key of the option that holds the seconds of rest between sets.
pub const SET_REST_TIME_KEY: u8 = 4;

/// How many options there are: their keys are the numbers below this one,
/// and they are shown in the order of their keys.
pub const OPTION_COUNT: usize = 5;

/// One option: what it is called, its value, and the largest value it can
/// be given.
#[derive(Debug, PartialEq, Eq)]
pub struct Option {
    pub name: String,
    pub value: u32,
    pub max: u32,
}

/// What is to happen after a key.
#[derive(Clone, Copy, Debug, PartialEq, Eq, Structural)]
pub enum KeyOutcome {
    /// The options stay on the screen.
    Continue,
    /// The options are accepted: the workout begins.
    Accept,
    /// The user leaves without a workout.
    Quit,
}

/// One line of the options' screen.
#[derive(Debug, PartialEq, Eq)]
pub struct OptionLine {
    pub text: String,
    pub active: bool,
}

/// The name that an option starts with.
pub open spec fn default_name(key: u8) -> Seq<char> {
    if key == EXCERCISE_TIME_KEY {
        "Excercise time in seconds"@
    } else if key == EXCERCISE_QUANTITY_KEY {
        "Number of excercises per onse set"@
    } else if key == EXCERCISE_REST_TIME_KEY {
        "Rest time between excercises in seconds"@
    } else if key == SET_QUANTITY_KEY {
        "Number of sets"@
    } else {
        "Rest time between sets in seconds"@
    }
}

/// The value that an option starts with.
pub open spec fn default_value(key: u8) -> u32 {
    if key == EXCERCISE_TIME_KEY {
        45
    } else if key == EXCERCISE_QUANTITY_KEY {
        10
    } else if key == EXCERCISE_REST_TIME_KEY {
        15
    } else if key == SET_QUANTITY_KEY {
        3
    } else {
        120
    }
}

/// The largest value that an option can be given: ten minutes for a time,
/// twenty for a quantity.
pub open spec fn default_max(key: u8) -> u32 {
    if key == EXCERCISE_QUANTITY_KEY || key == SET_QUANTITY_KEY {
        20
    } else {
        600
    }
}

/// The option is as it is before the user has changed any.
pub open spec fn is_default(option: Option, key: u8) -> bool {
    &&& option.name@ == default_name(key)
    &&& option.value == default_value(key)
    &&& option.max == default_max(key)
}

/// The map holds every option.
pub open spec fn has_all_options(options: Map<u8, Option>) -> bool {
    forall|key: u8| key < OPTION_COUNT ==> options.contains_key(key)
}

/// Every option has a value from 1 to its largest, and its largest is not
/// above the one it starts with.
pub open spec fn within_limits(options: Map<u8, Option>) -> bool {
    forall|key: u8|
        key < OPTION_COUNT ==> 1 <= (#[trigger] options[key]).value <= options[key].max
            <= default_max(key)
}

/// The options make a valid configuration of a timer.
pub open spec fn options_valid(options: Map<u8, Option>) -> bool {
    valid_config(
        options[EXCERCISE_TIME_KEY].value,
        options[EXCERCISE_QUANTITY_KEY].value,
        options[EXCERCISE_REST_TIME_KEY].value,
        options[SET_QUANTITY_KEY].value,
        options[SET_REST_TIME_KEY].value,
    )
}

/// The timer at the start of the workout that the options describe.
pub open spec fn timer_of(options: Map<u8, Option>) -> Timer {
    Timer::initial(
        options[EXCERCISE_TIME_KEY].value,
        options[EXCERCISE_QUANTITY_KEY].value,
        options[EXCERCISE_REST_TIME_KEY].value,
        options[SET_QUANTITY_KEY].value,
        options[SET_REST_TIME_KEY].value,
    )
}

/// Whatever values the user chooses within the options' ranges, a timer can
/// be made of them.
pub proof fn lemma_options_within_limits_are_valid(options: Map<u8, Option>)
    requires
        within_limits(options),
    ensures
        options_valid(options),
{
    let e = options[EXCERCISE_TIME_KEY].value as int;
    let q = options[EXCERCISE_QUANTITY_KEY].value as int;
    let r = options[EXCERCISE_REST_TIME_KEY].value as int;
    let s = options[SET_QUANTITY_KEY].value as int;
    let sr = options[SET_REST_TIME_KEY].value as int;
    assert(q * e <= 20 * 600 && (q - 1) * r <= 19 * 600) by (nonlinear_arith)
        requires
            1 <= e <= 600,
            1 <= q <= 20,
            1 <= r <= 600,
    ;
    let st = set_time(e, q, r);
    assert(s * st <= 20 * 23438 && (s - 1) * sr <= 19 * 600) by (nonlinear_arith)
        requires
            1 <= s <= 20,
            0 <= st <= 23438,
            1 <= sr <= 600,
    ;
    assert(total_time(e, q, r, s, sr) <= 480198);
}

/// The key moves the active line down.
pub open spec fn moves_down(key: Key) -> bool {
    key == Key::Down || key == Key::Char('s')
}

/// The key moves the active line up.
pub open spec fn moves_up(key: Key) -> bool {
    key == Key::Up || key == Key::Char('w')
}

/// The key lowers the value of the active option.
pub open spec fn lowers_value(key: Key) -> bool {
    key == Key::Left || key == Key::Char('a')
}

/// The key raises the value of the active option.
pub open spec fn raises_value(key: Key) -> bool {
    key == Key::Right || key == Key::Char('d')
}

/// What a key says is to happen: Enter accepts, `q` quits, with any other
/// key the options stay.
pub open spec fn outcome_of(key: Key) -> KeyOutcome {
    if key == Key::Enter {
        KeyOutcome::Accept
    } else if key == Key::Char('q') {
        KeyOutcome::Quit
    } else {
        KeyOutcome::Continue
    }
}

/// The line that is active after a key: one further down or up, as long as
/// there is one.
pub open spec fn index_after(index: usize, key: Key) -> usize {
    if moves_down(key) && index + 1 < OPTION_COUNT {
        (index + 1) as usize
    } else if moves_up(key) && index > 0 {
        (index - 1) as usize
    } else {
        index
    }
}

/// The value of the active option after a key: one less, but not below 1,
/// or one more, but not above the largest.
pub open spec fn value_after(value: u32, max: u32, key: Key) -> u32 {
    if lowers_value(key) && value > 1 {
        (value - 1) as u32
    } else if raises_value(key) && value < max {
        (value + 1) as u32
    } else {
        value
    }
}

/// What a line of the screen says: the option's name and its value.
pub open spec fn line_text(option: Option) -> Seq<char> {
    option.name@ + seq![':', ' '] + decimal_text(option.value as nat)
}

/// The line shows the option, and is marked if it is the active one.
pub open spec fn is_line_of(line: OptionLine, option: Option, active: bool) -> bool {
    &&& line.text@ == line_text(option)
    &&& line.active == active
}

/// The options after a key: the value of the option in the active line is
/// changed as the key says, and nothing else.
pub open spec fn options_after(options: Map<u8, Option>, index: usize, key: Key) -> Map<
    u8,
    Option,
> {
    let option = options[index as u8];
    options.insert(
        index as u8,
        Option { value: value_after(option.value, option.max, key), ..option },
    )
}

/// The options as they are before the user has changed any.
pub fn get_default() -> (options: HashMap<u8, Option>)
    ensures
        options@.dom() =~= Set::new(|key: u8| key < OPTION_COUNT),
        forall|key: u8| key < OPTION_COUNT ==> is_default(#[trigger] options@[key], key),
        has_all_options(options@),
        within_limits(options@),
{
    let mut options: HashMap<u8, Option> = HashMap::new();
    options.insert(
        EXCERCISE_TIME_KEY,
        Option { name: String::from_str("Excercise time in seconds"), value: 45, max: 600 },
    );
    options.insert(
        EXCERCISE_QUANTITY_KEY,
        Option { name: String::from_str("Number of excercises per onse set"), value: 10, max: 20 },
    );
    options.insert(
        EXCERCISE_REST_TIME_KEY,
        Option {
            name: String::from_str("Rest time between excercises in seconds"),
            value: 15,
            max: 600,
        },
    );
    options.insert(
        SET_QUANTITY_KEY,
        Option { name: String::from_str("Number of sets"), value: 3, max: 20 },
    );
    options.insert(
        SET_REST_TIME_KEY,
        Option {
            name: String::from_str("Rest time between sets in seconds"),
            value: 120,
            max: 600,
        },
    );
    options
}

/// The timer for the workout that the options describe, if they make a valid
/// configuration; they do whenever their values are within their ranges.
pub fn make_timer(user_options: &HashMap<u8, Option>) -> (timer: core::option::Option<Timer>)
    requires
        has_all_options(user_options@),
    ensures
        timer is Some <==> options_valid(user_options@),
        timer is Some ==> timer->0 == timer_of(user_options@),
        timer is Some ==> timer->0.on_schedule() && timer->0.can_tick(),
        within_limits(user_options@) ==> timer is Some,
{
    proof {
        if within_limits(user_options@) {
            lemma_options_within_limits_are_valid(user_options@);
        }
    }
    let excercise_time = user_options.get(&EXCERCISE_TIME_KEY).unwrap().value;
    let excercise_quantity = user_options.get(&EXCERCISE_QUANTITY_KEY).unwrap().value;
    let excercise_rest_time = user_options.get(&EXCERCISE_REST_TIME_KEY).unwrap().value;
    let set_quantity = user_options.get(&SET_QUANTITY_KEY).unwrap().value;
    let set_rest_time = user_options.get(&SET_REST_TIME_KEY).unwrap().value;
    if Timer::is_valid_config(
        excercise_time,
        excercise_quantity,
        excercise_rest_time,
        set_quantity,
        set_rest_time,
    ) {
        Some(
            Timer::new(
                excercise_time,
                excercise_quantity,
                excercise_rest_time,
                set_quantity,
                set_rest_time,
            ),
        )
    } else {
        None
    }
}

/// The lines of the screen, from the top: one for each option, in the order
/// of the keys, the one at `active_index` marked.
pub fn option_lines(
    user_options: &HashMap<u8, Option>,
    active_index: usize,
) -> (lines: Vec<OptionLine>)
    requires
        has_all_options(user_options@),
    ensures
        lines.len() == OPTION_COUNT,
        forall|i: int|
            0 <= i < OPTION_COUNT ==> is_line_of(
                #[trigger] lines[i],
                user_options@[i as u8],
                i == active_index,
            ),
{
    let mut lines: Vec<OptionLine> = Vec::new();
    let mut index: usize = 0;
    while index < OPTION_COUNT
        invariant
            has_all_options(user_options@),
            index <= OPTION_COUNT,
            lines.len() == index,
            forall|i: int|
                0 <= i < index ==> is_line_of(
                    #[trigger] lines[i],
                    user_options@[i as u8],
                    i == active_index,
                ),
        decreases OPTION_COUNT - index,
    {
        let option_key: u8 = index as u8;
        let option = user_options.get(&option_key).unwrap();
        let mut text = option.name.clone();
        proof {
            reveal_strlit(": ");
            assert(": "@ =~= seq![':', ' ']);
        }
        text.append(": ");
        push_decimal(&mut text, option.value);
        lines.push(OptionLine { text, active: index == active_index });
        index = index + 1;
    }
    lines
}

/// Applies one key to the options on the screen. Enter and `q` end the
/// screen and change nothing. The arrows, or `w`, `a`, `s` and `d` in their
/// place, move the active line or change the value of the option in it.
pub fn on_key(
    user_options: &mut HashMap<u8, Option>,
    active_index: &mut usize,
    key: Key,
) -> (outcome: KeyOutcome)
    requires
        has_all_options(old(user_options)@),
        *old(active_index) < OPTION_COUNT,
    ensures
        outcome == outcome_of(key),
        *final(active_index) == index_after(*old(active_index), key),
        *final(active_index) < OPTION_COUNT,
        final(user_options)@ == options_after(old(user_options)@, *old(active_index), key),
        has_all_options(final(user_options)@),
        within_limits(old(user_options)@) ==> within_limits(final(user_options)@),
{
    let mut new_value: u32 = 0;
    let option_key: u8 = *active_index as u8;
    let ghost before = user_options@;
    proof {
        assert(before.insert(option_key, before[option_key]) =~= before);
    }
    match key {
        Key::Enter => {
            return KeyOutcome::Accept;
        },
        Key::Char(c) => {
            if c == 'q' {
                return KeyOutcome::Quit;
            }
        },
        _ => {},
    }
    let down = match key {
        Key::Down => true,
        Key::Char(c) => c == 's',
        _ => false,
    };
    let up = match key {
        Key::Up => true,
        Key::Char(c) => c == 'w',
        _ => false,
    };
    let left = match key {
        Key::Left => true,
        Key::Char(c) => c == 'a',
        _ => false,
    };
    let right = match key {
        Key::Right => true,
        Key::Char(c) => c == 'd',
        _ => false,
    };
    if down && *active_index < OPTION_COUNT - 1 {
        *active_index = *active_index + 1;
    } else if up && *active_index > 0 {
        *active_index = *active_index - 1;
    } else if left {
        let option = user_options.get(&option_key).unwrap();
        if option.value > 0 {
            new_value = option.value - 1;
        }
    } else if right {
        let option = user_options.get(&option_key).unwrap();
        if option.value < option.max {
            new_value = option.value + 1;
        }
    }
    if new_value != 0 {
        let option = user_options.get(&option_key).unwrap();
        let updated_option = Option { name: option.name.clone(), value: new_value, max: option.max };
        user_options.insert(option_key, updated_option);
    }
    KeyOutcome::Continue
}

} // verus!
