//! The window that holds the overlay.

use vstd::prelude::*;
use crate::placement::Size;

verus! {

/// The width of the window, in logical units.
pub const WINDOW_WIDTH: u32 = 120;

/// The height of the window, in logical units.
pub const WINDOW_HEIGHT: u32 = 30;

/// How the window is opened. None of it changes while the overlay runs.
#[derive(Clone, Copy, Debug, PartialEq, Eq, Structural)]
pub struct WindowSettings {
    /// The size of the window.
    pub size: Size,
    /// Whether the window has a border and a title bar.
    pub decorations: bool,
    /// Whether the window's background lets through what is behind it.
    pub transparent: bool,
    /// Whether the user can resize the window.
    pub resizable: bool,
    /// Whether the window stays above all other windows.
    pub always_on_top: bool,
}

/// The overlay's window: 120 by 30, bare, see-through, of fixed size and
/// above everything else.
pub open spec fn overlay() -> WindowSettings {
    WindowSettings {
        size: Size { width: WINDOW_WIDTH, height: WINDOW_HEIGHT },
        decorations: false,
        transparent: true,
        resizable: false,
        always_on_top: true,
    }
}

/// The settings with which the overlay opens its window.
pub fn window_settings() -> (settings: WindowSettings)
    ensures
        settings == overlay(),
{
    WindowSettings {
        size: Size { width: WINDOW_WIDTH, height: WINDOW_HEIGHT },
        decorations: false,
        transparent: true,
        resizable: false,
        always_on_top: true,
    }
}

} // verus!
