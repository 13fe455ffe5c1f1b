//! Verified core of a coding agent: argument validation, file-type detection,
//! text editing strategies, patch parsing, output building and the state of
//! the terminal UI widgets.
use vstd::prelude::*;

pub mod logging;
pub mod model;
pub mod text;
pub mod tools;
pub mod ui;

verus! {
}
