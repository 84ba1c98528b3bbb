//! What the screen shows for a session.
//!
//! The chart is described in plain values: three named and coloured series,
//! two axes with their bounds, and the labels along the time axis. Turning
//! that description into pixels is the caller's business.

use vstd::prelude::*;
use vstd::string::*;

use crate::label::{decimal, decimal_string, elapsed_label, elapsed_text};
use crate::session::App;
use crate::signal::{points, Point, Sample};

verus! {

/// Lower bound of the height axis.
pub const Y_MIN: i64 = -20;

/// Upper bound of the height axis.
pub const Y_MAX: i64 = 20;

/// A colour of the terminal's palette.
#[derive(Clone, Copy, Debug, PartialEq, Eq)]
pub enum Color {
    Cyan,
    Red,
    Yellow,
    Gray,
}

/// The symbol a series is plotted with.
#[derive(Clone, Copy, Debug, PartialEq, Eq)]
pub enum Marker {
    Braille,
}

/// A piece of text on an axis.
#[derive(Debug, PartialEq, Eq)]
pub struct Label {
    pub text: String,
    pub bold: bool,
}

/// One plotted series.
#[derive(Debug, PartialEq, Eq)]
pub struct Dataset {
    pub name: String,
    pub marker: Marker,
    pub color: Color,
    pub data: Vec<Sample>,
}

/// One axis of the chart.
#[derive(Debug, PartialEq, Eq)]
pub struct Axis {
    pub color: Color,
    /// The labels along the axis, first to last, if it has any.
    pub labels: Option<Vec<Label>>,
    pub bounds: [i64; 2],
}

/// The whole chart.
#[derive(Debug, PartialEq, Eq)]
pub struct Chart {
    pub datasets: Vec<Dataset>,
    pub x_axis: Axis,
    pub y_axis: Axis,
}

impl Label {
    /// Whether the label shows `text`, in bold or not.
    pub open spec fn reads(self, text: Seq<char>, bold: bool) -> bool {
        &&& self.text@ == text
        &&& self.bold == bold
    }
}

impl Dataset {
    /// Whether the series is called `name` and plots `data` in braille dots
    /// of the given colour.
    pub open spec fn plots(self, name: Seq<char>, color: Color, data: Seq<Point>) -> bool {
        &&& self.name@ == name
        &&& self.marker == Marker::Braille
        &&& self.color == color
        &&& points(self.data@) == data
    }
}

impl Axis {
    /// Whether the axis is drawn in `color` and spans `[low, high]`.
    pub open spec fn spans(self, color: Color, low: int, high: int) -> bool {
        &&& self.color == color
        &&& self.bounds[0] == low
        &&& self.bounds[1] == high
    }
}

/// Describes the chart of a session.
///
/// The three windows are plotted as "Break", "Work" and "Lunch" over a time
/// axis that spans the session's clock. The time axis is labelled with the
/// cursor of the first signal, the title, and the elapsed time; the height
/// axis has fixed bounds and carries no labels.
pub fn ui(app: &App) -> (chart: Chart)
    ensures
        chart.datasets@.len() == 3,
        chart.datasets@[0].plots("Break"@, Color::Cyan, app@.data1),
        chart.datasets@[1].plots("Work"@, Color::Red, app@.data2),
        chart.datasets@[2].plots("Lunch"@, Color::Yellow, app@.data3),
        chart.x_axis.spans(Color::Gray, app@.window.0, app@.window.1),
        chart.x_axis.labels is Some,
        chart.x_axis.labels.unwrap()@.len() == 3,
        chart.x_axis.labels.unwrap()@[0].reads(decimal(app@.signal1.cursor as nat), true),
        chart.x_axis.labels.unwrap()@[1].reads("Pomodoro"@, false),
        chart.x_axis.labels.unwrap()@[2].reads(elapsed_text(app@.window.1 as nat), true),
        chart.y_axis.spans(Color::Gray, Y_MIN as int, Y_MAX as int),
        chart.y_axis.labels is None,
{
    proof {
        use_type_invariant(app);
        app.lemma_wf();
    }
    let window = app.window();
    let cursor: i64 = app.signal1().cursor();

    let mut datasets: Vec<Dataset> = Vec::with_capacity(3);
    datasets.push(
        Dataset {
            name: String::from_str("Break"),
            marker: Marker::Braille,
            color: Color::Cyan,
            data: app.data1().to_vec(),
        },
    );
    datasets.push(
        Dataset {
            name: String::from_str("Work"),
            marker: Marker::Braille,
            color: Color::Red,
            data: app.data2().to_vec(),
        },
    );
    datasets.push(
        Dataset {
            name: String::from_str("Lunch"),
            marker: Marker::Braille,
            color: Color::Yellow,
            data: app.data3().to_vec(),
        },
    );

    let mut x_labels: Vec<Label> = Vec::with_capacity(3);
    x_labels.push(Label { text: decimal_string(cursor as u64), bold: true });
    x_labels.push(Label { text: String::from_str("Pomodoro"), bold: false });
    x_labels.push(Label { text: elapsed_label(window[1] as u64), bold: true });

    Chart {
        datasets,
        x_axis: Axis { color: Color::Gray, labels: Some(x_labels), bounds: window },
        y_axis: Axis { color: Color::Gray, labels: None, bounds: [Y_MIN, Y_MAX] },
    }
}

} // verus!
