//! What the overlay shows: a row of three buttons.

use vstd::prelude::*;
use crate::action::Action;
use crate::playback::{glyph_chars, PlaybackState, State};

verus! {

/// The width of each button, in logical units.
pub const BUTTON_WIDTH: u32 = 40;

/// One button of the row.
#[derive(Clone, Copy, Debug, PartialEq, Eq)]
pub struct Button {
    /// The text on the button.
    pub label: &'static str,
    /// Whether the text is centred on the button, across and down.
    pub centered: bool,
    /// The action that a press of the button stands for.
    pub on_press: Action,
    /// The width of the button, in logical units.
    pub width: u32,
    /// The radius of the button's corners, in logical units: zero for square
    /// corners.
    pub corner_radius: u32,
}

/// A button as a plain value, its label as the characters it holds.
pub struct ButtonView {
    pub label: Seq<char>,
    pub centered: bool,
    pub on_press: Action,
    pub width: nat,
    pub corner_radius: nat,
}

impl View for Button {
    type V = ButtonView;

    open spec fn view(&self) -> ButtonView {
        ButtonView {
            label: self.label@,
            centered: self.centered,
            on_press: self.on_press,
            width: self.width as nat,
            corner_radius: self.corner_radius as nat,
        }
    }
}

/// A square-cornered button of the common width.
pub open spec fn control(label: Seq<char>, centered: bool, on_press: Action) -> ButtonView {
    ButtonView { label, centered, on_press, width: BUTTON_WIDTH as nat, corner_radius: 0 }
}

/// The row for a playback state, left to right: back, play/pause, forward.
/// Only the label in the middle depends on the state, and only that label
/// is centred.
pub open spec fn controls(playback: PlaybackState) -> Seq<ButtonView> {
    seq![
        control(seq!['<', '<'], false, Action::Backward),
        control(glyph_chars(playback), true, Action::PlayPause),
        control(seq!['>', '>'], false, Action::Forward),
    ]
}

/// The row of buttons for `state`, left to right.
pub fn view(state: &State) -> (row: Vec<Button>)
    ensures
        row@.map_values(|button: Button| button@) == controls(state.media_state),
        row@.len() == 3,
{
    proof {
        reveal_strlit("<<");
        reveal_strlit(">>");
    }
    let back = Button {
        label: "<<",
        centered: false,
        on_press: Action::Backward,
        width: BUTTON_WIDTH,
        corner_radius: 0,
    };
    let middle = Button {
        label: state.media_state.glyph(),
        centered: true,
        on_press: Action::PlayPause,
        width: BUTTON_WIDTH,
        corner_radius: 0,
    };
    let forward = Button {
        label: ">>",
        centered: false,
        on_press: Action::Forward,
        width: BUTTON_WIDTH,
        corner_radius: 0,
    };
    assert(back@.label =~= seq!['<', '<']);
    assert(forward@.label =~= seq!['>', '>']);
    let mut row: Vec<Button> = Vec::new();
    row.push(back);
    row.push(middle);
    row.push(forward);
    assert(row@.map_values(|button: Button| button@) =~= controls(state.media_state));
    row
}

} // verus!
