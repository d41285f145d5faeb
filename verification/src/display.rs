//! What a running timer shows: the gauge of the workout, and below it the
//! gauges of the phases that the state calls for.

use vstd::prelude::*;
use crate::timer::{Timer, TimerState};

verus! {

/// Which countdown a gauge shows.
#[derive(Clone, Copy, Debug, PartialEq, Eq, Structural)]
pub enum GaugeKind {
    FullWorkout,
    CurrentSet,
    SetRest,
    CurrentExcercise,
    ExcerciseRest,
}

/// One gauge: the row it is drawn in, counted from 0, its title, how full it
/// is in percent, and the text on it.
#[derive(Debug, PartialEq, Eq)]
pub struct GaugeView {
    pub kind: GaugeKind,
    pub row: usize,
    pub title: String,
    pub percent: u16,
    pub label: String,
}

/// A gauge with its texts as sequences of characters.
pub ghost struct GaugeModel {
    pub kind: GaugeKind,
    pub row: usize,
    pub title: Seq<char>,
    pub percent: u16,
    pub label: Seq<char>,
}

impl View for GaugeView {
    type V = GaugeModel;

    open spec fn view(&self) -> GaugeModel {
        GaugeModel {
            kind: self.kind,
            row: self.row,
            title: self.title@,
            percent: self.percent,
            label: self.label@,
        }
    }
}

impl Timer {
    /// The gauge of the whole workout.
    pub open spec fn workout_gauge(self) -> GaugeModel {
        GaugeModel {
            kind: GaugeKind::FullWorkout,
            row: 0,
            title: "Full Workout Timer"@,
            percent: self.workout.time.progress,
            label: self.workout.time.label_text(),
        }
    }

    /// The gauge of the running set.
    pub open spec fn set_gauge(self) -> GaugeModel {
        GaugeModel {
            kind: GaugeKind::CurrentSet,
            row: 1,
            title: self.set.title(),
            percent: self.set.time.progress,
            label: self.set.time.label_text(),
        }
    }

    /// The gauge of the rest between sets.
    pub open spec fn set_rest_gauge(self) -> GaugeModel {
        GaugeModel {
            kind: GaugeKind::SetRest,
            row: 1,
            title: "Set Rest Timer"@,
            percent: self.set_rest.time.progress,
            label: self.set_rest.time.label_text(),
        }
    }

    /// The gauge of the running exercise.
    pub open spec fn excercise_gauge(self) -> GaugeModel {
        GaugeModel {
            kind: GaugeKind::CurrentExcercise,
            row: 2,
            title: self.excercise.title(),
            percent: self.excercise.time.progress,
            label: self.excercise.time.label_text(),
        }
    }

    /// The gauge of the rest between exercises.
    pub open spec fn excercise_rest_gauge(self) -> GaugeModel {
        GaugeModel {
            kind: GaugeKind::ExcerciseRest,
            row: 2,
            title: "Excercise Rest Timer"@,
            percent: self.excercise_rest.time.progress,
            label: self.excercise_rest.time.label_text(),
        }
    }

    /// The gauges to draw, from the top. The workout is always shown. Below
    /// it stands the set, or the rest between sets while that runs; below
    /// that the exercise, or the rest between exercises while that runs, and
    /// nothing during the rest between sets.
    pub open spec fn gauge_models(self) -> Seq<GaugeModel> {
        match self.state {
            TimerState::InSet => seq![
                self.workout_gauge(),
                self.set_gauge(),
                self.excercise_gauge(),
            ],
            TimerState::InSetRest => seq![self.workout_gauge(), self.set_rest_gauge()],
            TimerState::InExcerciseRest => seq![
                self.workout_gauge(),
                self.set_gauge(),
                self.excercise_rest_gauge(),
            ],
        }
    }

    /// The gauges to draw, from the top. None is filled beyond 100 percent.
    pub fn gauges(&self) -> (gauges: Vec<GaugeView>)
        ensures
            gauges.len() == self.gauge_models().len(),
            forall|i: int| 0 <= i < gauges.len() ==> gauges[i]@ == self.gauge_models()[i],
            self.wf() ==> forall|i: int| 0 <= i < gauges.len() ==> gauges[i].percent <= 100,
    {
        proof {
            if self.wf() {
                self.lemma_progress_ranges();
            }
        }
        let mut gauges: Vec<GaugeView> = Vec::new();
        gauges.push(
            GaugeView {
                kind: GaugeKind::FullWorkout,
                row: 0,
                title: String::from_str("Full Workout Timer"),
                percent: self.workout.time.progress,
                label: self.workout.get_label(),
            },
        );
        if self.state == TimerState::InSet || self.state == TimerState::InExcerciseRest {
            gauges.push(
                GaugeView {
                    kind: GaugeKind::CurrentSet,
                    row: 1,
                    title: self.set.get_title(),
                    percent: self.set.time.progress,
                    label: self.set.get_label(),
                },
            );
        } else if self.state == TimerState::InSetRest {
            gauges.push(
                GaugeView {
                    kind: GaugeKind::SetRest,
                    row: 1,
                    title: String::from_str("Set Rest Timer"),
                    percent: self.set_rest.time.progress,
                    label: self.set_rest.get_label(),
                },
            );
        }
        if self.state == TimerState::InSetRest {
        } else if self.state == TimerState::InSet {
            gauges.push(
                GaugeView {
                    kind: GaugeKind::CurrentExcercise,
                    row: 2,
                    title: self.excercise.get_title(),
                    percent: self.excercise.time.progress,
                    label: self.excercise.get_label(),
                },
            );
        } else if self.state == TimerState::InExcerciseRest {
            gauges.push(
                GaugeView {
                    kind: GaugeKind::ExcerciseRest,
                    row: 2,
                    title: String::from_str("Excercise Rest Timer"),
                    percent: self.excercise_rest.time.progress,
                    label: self.excercise_rest.get_label(),
                },
            );
        }
        gauges
    }
}

} // verus!
