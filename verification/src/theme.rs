//! The colours of the overlay.

use vstd::prelude::*;
use crate::playback::State;

verus! {

/// A colour by its red, green, blue and alpha channels, each from 0 to 255.
#[derive(Clone, Copy, Debug, PartialEq, Eq, Structural)]
pub struct Color {
    pub r: u8,
    pub g: u8,
    pub b: u8,
    pub a: u8,
}

/// The colours that a theme is built from.
#[derive(Clone, Copy, Debug, PartialEq, Eq, Structural)]
pub struct Palette {
    pub background: Color,
    pub text: Color,
    pub primary: Color,
    pub success: Color,
    pub danger: Color,
}

/// A named palette.
#[derive(Clone, Copy, Debug, PartialEq, Eq)]
pub struct Theme {
    pub name: &'static str,
    pub palette: Palette,
}

/// A theme as a plain value, its name as the characters it holds.
pub struct ThemeView {
    pub name: Seq<char>,
    pub palette: Palette,
}

impl View for Theme {
    type V = ThemeView;

    open spec fn view(&self) -> ThemeView {
        ThemeView { name: self.name@, palette: self.palette }
    }
}

/// Opaque black.
pub open spec fn black() -> Color {
    Color { r: 0, g: 0, b: 0, a: 255 }
}

/// Opaque white.
pub open spec fn white() -> Color {
    Color { r: 255, g: 255, b: 255, a: 255 }
}

/// Opaque red.
pub open spec fn red() -> Color {
    Color { r: 255, g: 0, b: 0, a: 255 }
}

/// The overlay's one palette: white on black, with red for what went wrong.
pub open spec fn dark_palette() -> Palette {
    Palette { background: black(), text: white(), primary: white(), success: white(), danger: red() }
}

/// The theme of the overlay. It is the same in every state.
pub fn theme(state: &State) -> (theme: Theme)
    ensures
        theme@ == (ThemeView { name: "Custom Dark"@, palette: dark_palette() }),
{
    let black = Color { r: 0, g: 0, b: 0, a: 255 };
    let white = Color { r: 255, g: 255, b: 255, a: 255 };
    let red = Color { r: 255, g: 0, b: 0, a: 255 };
    Theme {
        name: "Custom Dark",
        palette: Palette {
            background: black,
            text: white,
            primary: white,
            success: white,
            danger: red,
        },
    }
}

} // verus!
