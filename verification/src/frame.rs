//! The per-frame cursor update, modelled over plain pixel values.
//!
//! Each frame the update runs in three steps: decide which window the camera
//! renders to, read the cursor inside that window, and normalize the cursor's
//! pixel position to device coordinates. Everything here is exact integer
//! arithmetic; turning the normalized point into a world position is the
//! engine's matrix work and happens outside this crate.

use vstd::prelude::*;

verus! {

/// Where a camera renders to, as far as the cursor update reads it: either a
/// specific window, named by an identifier, or some other render target.
#[derive(Clone, Copy, Debug, PartialEq, Eq)]
pub enum CameraTarget {
    /// The camera renders to the window with this identifier.
    Window(u64),
    /// The camera renders somewhere else (an off-screen image, for example).
    Other,
}

/// Which window the update must query for the cursor.
#[derive(Clone, Copy, Debug, PartialEq, Eq)]
pub enum WindowChoice {
    /// Look the window up by its identifier.
    ById(u64),
    /// Fall back to the primary window.
    Primary,
}

/// Picks the window to query for the cursor: the camera's own window when it
/// renders to one, the primary window otherwise.
pub fn resolve_window_choice(target: &CameraTarget) -> (c: WindowChoice)
    ensures
        target matches CameraTarget::Window(id) ==> (c matches WindowChoice::ById(cid)
            && cid == id),
        target is Other ==> c is Primary,
{
    match target {
        CameraTarget::Window(id) => WindowChoice::ById(*id),
        CameraTarget::Other => WindowChoice::Primary,
    }
}

/// A cursor position inside a window, in whole pixels, measured from the
/// window's lower-left corner.
#[derive(Clone, Copy, Debug, PartialEq, Eq)]
pub struct CursorPos {
    pub x: i32,
    pub y: i32,
}

/// What the update reads from the window it queried: the pixel dimensions,
/// and the cursor position when the cursor is inside the window.
#[derive(Clone, Copy, Debug, PartialEq, Eq)]
pub struct WindowInfo {
    /// Window width in pixels.
    pub width: i32,
    /// Window height in pixels.
    pub height: i32,
    /// The cursor position, or `None` while the cursor is outside the window.
    pub cursor: Option<CursorPos>,
}

impl WindowInfo {
    /// A window reading is well formed when a reported cursor actually lies
    /// within the window's extent, which must then be positive.
    pub open spec fn wf(self) -> bool {
        self.cursor matches Some(c) ==> {
            &&& 0 < self.width
            &&& 0 < self.height
            &&& 0 <= c.x <= self.width
            &&& 0 <= c.y <= self.height
        }
    }
}

/// One normalized device coordinate, kept as the exact fraction
/// `num / den` with a positive denominator.
#[derive(Clone, Copy, Debug, PartialEq, Eq)]
pub struct NdcCoord {
    pub num: i64,
    pub den: i64,
}

/// Normalizes a pixel coordinate `p` within an extent `s` to the device
/// range: the exact value `2 * p / s - 1`, returned as the fraction
/// `(2 * p - s) / s`. For `p` within `[0, s]` the fraction lies in `[-1, 1]`,
/// that is, `-den <= num <= den`.
pub fn ndc_axis(p: i32, s: i32) -> (r: NdcCoord)
    requires
        0 < s,
    ensures
        r.num == 2 * p - s,
        r.den == s,
        0 < r.den,
        0 <= p <= s ==> -r.den <= r.num <= r.den,
{
    NdcCoord { num: 2 * (p as i64) - (s as i64), den: s as i64 }
}

/// What the frame update does once the chosen window has been queried.
#[derive(Clone, Copy, Debug, PartialEq, Eq)]
pub enum FrameAction {
    /// The chosen window does not exist: the update cannot proceed and the
    /// caller aborts, since a camera without its window is unrecoverable.
    MissingWindow,
    /// The cursor is outside the window: leave the stored position as it is.
    CursorOutside,
    /// Unproject this normalized point through the camera's matrices and
    /// store the first two coordinates of the result.
    Unproject { ndc_x: NdcCoord, ndc_y: NdcCoord },
}

/// Decides one frame of the cursor update from what the window query
/// returned: abort on a missing window, skip while the cursor is outside,
/// and otherwise hand back the cursor position normalized to device
/// coordinates, each axis as an exact fraction.
pub fn frame_step(window: Option<WindowInfo>) -> (a: FrameAction)
    requires
        window matches Some(w) ==> w.wf(),
    ensures
        a is MissingWindow <==> window is None,
        a is CursorOutside <==> (window matches Some(w) && w.cursor is None),
        window matches Some(w) ==> (w.cursor matches Some(c) ==> (a matches
            FrameAction::Unproject { ndc_x, ndc_y }
            && ndc_x.num == 2 * c.x - w.width
            && ndc_x.den == w.width
            && ndc_y.num == 2 * c.y - w.height
            && ndc_y.den == w.height)),
{
    match window {
        None => FrameAction::MissingWindow,
        Some(w) => {
            match w.cursor {
                None => FrameAction::CursorOutside,
                Some(c) => FrameAction::Unproject {
                    ndc_x: ndc_axis(c.x, w.width),
                    ndc_y: ndc_axis(c.y, w.height),
                },
            }
        }
    }
}

} // verus!
