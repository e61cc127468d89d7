//! Control logic of an on-screen assistant overlay: a command queue that runs
//! one command at a time, a typewriter dialogue box, a text input field that
//! scrolls once it is full, and a filtered, scrollable option list.
//!
//! Everything here works on plain values. Lengths are whole pixels, times are
//! milliseconds since start, and text is measured by its caller.

use vstd::prelude::*;

pub mod app;
pub mod canvas;
pub mod geometry;
pub mod message;
pub mod text;
pub mod textbox;
pub mod ui;

verus! {

/// Width of the screen the overlay is laid out for, in pixels.
pub const SCREEN_WIDTH: u16 = 1920;

/// Height of the screen the overlay is laid out for, in pixels.
pub const SCREEN_HEIGHT: u16 = 1080;

} // verus!
