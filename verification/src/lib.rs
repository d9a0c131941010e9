//! Verified core of an interactive block-lighting canvas editor.
//!
//! The library holds everything that can be stated and proved: the decimal
//! control-value parser, the scene grid, the interaction state machine, the
//! shader build decisions, the frame command generator and the animation
//! driver's scheduling discipline. The browser boundary (DOM events, WebGL
//! calls, frame scheduling) is driven from outside; it hands the library
//! plain values and carries out the commands the library returns.

pub mod control;
pub mod driver;
pub mod editor;
pub mod render;
pub mod scene;
pub mod shader;

use vstd::prelude::*;

verus! {

/// Number of canvas pixels covered by one grid cell, in each axis.
pub const CELL_SIZE: u32 = 16;

} // verus!
