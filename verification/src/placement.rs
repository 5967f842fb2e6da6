//! Where the overlay window goes on the screen.

use vstd::prelude::*;

verus! {

/// Width and height of a window or of a screen, in logical units.
#[derive(Clone, Copy, Debug, PartialEq, Eq, Structural)]
pub struct Size {
    pub width: u32,
    pub height: u32,
}

/// The top-left corner of a window, in logical units from the top-left corner
/// of the screen. A negative coordinate lies off the screen.
#[derive(Clone, Copy, Debug, PartialEq, Eq, Structural)]
pub struct Point {
    pub x: i64,
    pub y: i64,
}

/// The position that puts the bottom-right corner of a window of size
/// `window` on the bottom-right corner of a screen of size `screen`.
pub open spec fn anchored(window: Size, screen: Size) -> Point {
    Point {
        x: (screen.width - window.width) as i64,
        y: (screen.height - window.height) as i64,
    }
}

/// Anchors the window to the bottom-right corner of the screen: each
/// coordinate is the screen's extent minus the window's. A window larger than
/// the screen on an axis gets a negative coordinate there; nothing is clamped.
pub fn minus(window: Size, screen: Size) -> (position: Point)
    ensures
        position == anchored(window, screen),
        position.x == screen.width - window.width,
        position.y == screen.height - window.height,
{
    Point {
        x: screen.width as i64 - window.width as i64,
        y: screen.height as i64 - window.height as i64,
    }
}

} // verus!
