//! Viewer state and window placement for a floating pane of hint images.

use vstd::prelude::*;
use vstd::string::StringExecFns;

pub mod app;
pub mod config;
pub mod hints;
pub mod placement;
pub mod plugin;
pub mod utils;
pub mod window;

pub use crate::app::{Hints, HintsEvent};
pub use crate::config::ConfigLocation;

verus! {

/// Title of the hints window.
pub const TITLE: &'static str = "Hints";

/// Initial width of the hints window, in screen units.
pub const WIDTH: u32 = 400;

/// Initial height of the hints window, in screen units.
pub const HEIGHT: u32 = 300;

/// The window keeps one part in this many of the screen's size away from the edge.
pub const FROM_EDGE_PROPORTION: u32 = 20;

/// Upper limit of the distance that the window keeps from the screen's edge.
pub const FROM_EDGE_MIN: u32 = 50;

/// Name of the environment variable that selects what is logged.
pub const LOGGING_ENV_VAR: &'static str = "HINTS_LOG";

/// The hints could not be set up; the message says why.
#[derive(Debug)]
pub struct ConfigError {
    msg: String,
}

impl View for ConfigError {
    type V = Seq<char>;

    /// The message that the error was made with.
    closed spec fn view(&self) -> Seq<char> {
        self.msg@
    }
}

impl ConfigError {
    /// An error with the given message.
    #[must_use]
    pub fn new(msg: String) -> (error: Self)
        ensures
            error@ == msg@,
    {
        ConfigError { msg }
    }

    /// The message that the error was made with.
    pub fn msg(&self) -> (msg: &str)
        ensures
            msg@ == self@,
    {
        self.msg.as_str()
    }

    /// The text that is shown for the error: its message behind a fixed opening.
    pub fn to_string(&self) -> (text: String)
        ensures
            text@ == "Unable to load hints: "@ + self@,
    {
        let mut text = String::from_str("Unable to load hints: ");
        text.append(self.msg.as_str());
        text
    }
}

/// The distance from a screen edge, as a mathematical integer: the `proportion`-th part of
/// `size`, capped at `min`.
pub open spec fn offset_from_edge(size: int, proportion: int, min: int) -> int {
    if size / proportion <= min {
        size / proportion
    } else {
        min
    }
}

/// Distance to keep from the edge of a screen that is `size` wide (or high).
#[must_use]
pub fn get_offset_from_edge(size: u32, proportion: u32, min: u32) -> (offset: u32)
    requires
        proportion != 0,
    ensures
        offset == offset_from_edge(size as int, proportion as int, min as int),
        offset <= min,
        offset <= size,
{
    let part: u32 = size / proportion;
    assert(part <= size) by (nonlinear_arith)
        requires
            part == size as int / proportion as int,
            proportion >= 1,
    ;
    if part <= min {
        part
    } else {
        min
    }
}

} // verus!
