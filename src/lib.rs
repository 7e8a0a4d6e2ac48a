//! Rendering and device state of a 9x34 LED matrix input module: the pixel
//! coordinate cache, the keypress events behind the splash pattern, the
//! integer hash used for their randomness, the sleep and mode state machine,
//! and the host's command options.

use vstd::prelude::*;

pub mod addon;
pub mod control;
pub mod keypress;
pub mod matrix;

verus! {

} // verus!
