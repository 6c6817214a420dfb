//! What is reported when a compiled pattern match finds no arm: the text,
//! its colour, and the status with which the process then ends.

use crate::terminal::{foreground, foreground_style, is_terminal, Stream};
use vstd::prelude::*;

verus! {

/// The status with which the process ends after a match failure.
pub const FAILURE_STATUS: i32 = 1;

/// A colour that a diagnostic may ask of the terminal.
#[derive(Clone, Copy, Debug, PartialEq, Eq, Structural)]
pub enum Color {
    Red,
}

/// A fatal diagnostic: one line for the error stream, the colour to render
/// it in, if any, and the exit status that follows it.
#[derive(Clone, Copy, Debug)]
pub struct Diagnostic {
    pub message: &'static str,
    pub color: Option<Color>,
    pub status: i32,
}

/// The colour of the match-failure line: red on an interactive terminal,
/// none where the error stream goes elsewhere.
pub open spec fn failure_color(interactive: bool) -> Option<Color> {
    if interactive {
        Some(Color::Red)
    } else {
        None
    }
}

/// The diagnostic of a match failure. Only the colour follows the kind of
/// the error stream: the text and the status are the same on a terminal and
/// off it.
pub fn match_failure(interactive: bool) -> (diagnostic: Diagnostic)
    ensures
        diagnostic.message@ == "Match error!"@,
        diagnostic.color == failure_color(interactive),
        diagnostic.status == FAILURE_STATUS,
        diagnostic.status != 0,
{
    let color = if interactive {
        Some(Color::Red)
    } else {
        None
    };
    Diagnostic { message: "Match error!", color, status: FAILURE_STATUS }
}

/// The diagnostic of a match failure in this process: that of
/// `match_failure`, coloured if the error stream is a terminal right now.
/// Whatever the stream is, the text and the status are the same.
pub fn current_match_failure() -> (diagnostic: Diagnostic)
    ensures
        diagnostic.message@ == "Match error!"@,
        diagnostic.color == failure_color(true) || diagnostic.color == failure_color(false),
        diagnostic.status == FAILURE_STATUS,
{
    match_failure(is_terminal(Stream::Stderr))
}

/// What the terminal is told before a line in `color` is written: nothing
/// where there is no colour, else that colour in the foreground.
pub fn style(color: Option<Color>) -> (style: Option<termcolor::ColorSpec>)
    ensures
        style == match color {
            Some(c) => Some(foreground_style(c)),
            None => None,
        },
{
    match color {
        Some(c) => Some(foreground(c)),
        None => None,
    }
}

} // verus!
