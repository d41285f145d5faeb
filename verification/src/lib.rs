//! A nested interval-workout countdown: a workout made of sets, exercises and
//! the rests between them, advanced one second at a time.

pub mod control;
pub mod countdown;
pub mod display;
pub mod phases;
pub mod schedule;
pub mod time_text;
pub mod timer;
pub mod user_options;
