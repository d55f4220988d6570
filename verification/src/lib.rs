//! Per-frame tracking of the mouse cursor as 2D world coordinates.
//!
//! A camera shows a window; the cursor sits somewhere in that window, in
//! pixels. Recovering where the cursor is in the world takes a fixed sequence
//! of steps each frame: pick the window the camera renders to, skip the frame
//! when the cursor is outside it, normalize the pixel position to the
//! `[-1, 1]` device-coordinate range, and unproject that point through the
//! camera's matrices.
//!
//! This crate holds the decision logic and the normalization exactly. Pixel
//! positions are whole numbers here, and a normalized coordinate is kept as
//! an exact fraction, so each step carries a precise contract. The matrix
//! unprojection itself is floating-point work for the engine and stays with
//! the engine-facing code.

use vstd::prelude::*;

pub mod frame;

verus! {

/// Engine plugin that keeps a camera's tracked cursor position up to date.
///
/// The plugin itself carries no state; registering it schedules one update
/// per frame, whose behaviour [`frame`] describes.
pub struct MousePositionPlugin;

} // verus!
