//! The play/pause state that the overlay shows, and how an action changes it.

use vstd::prelude::*;
use crate::action::Action;

verus! {

/// What the overlay believes the player is doing. The belief follows the
/// user's clicks on play/pause: nothing comes back from the player itself.
#[derive(Clone, Copy, Debug, PartialEq, Eq, Structural)]
pub enum PlaybackState {
    Paused,
    Playing,
}

/// The other one of the two states.
pub open spec fn toggled(playback: PlaybackState) -> PlaybackState {
    match playback {
        PlaybackState::Paused => PlaybackState::Playing,
        PlaybackState::Playing => PlaybackState::Paused,
    }
}

/// The state that follows `playback` once `action` has been handled:
/// play/pause toggles it, the two skips leave it alone.
pub open spec fn next_playback(playback: PlaybackState, action: Action) -> PlaybackState {
    match action {
        Action::PlayPause => toggled(playback),
        Action::Forward | Action::Backward => playback,
    }
}

/// The characters on the centre button in each state.
pub open spec fn glyph_chars(playback: PlaybackState) -> Seq<char> {
    match playback {
        PlaybackState::Paused => seq!['|', '|'],
        PlaybackState::Playing => seq!['|', '>'],
    }
}

impl PlaybackState {
    /// Paused becomes playing and playing becomes paused.
    pub fn toggle(self) -> (flipped: PlaybackState)
        ensures
            flipped == toggled(self),
            flipped != self,
    {
        match self {
            PlaybackState::Paused => PlaybackState::Playing,
            PlaybackState::Playing => PlaybackState::Paused,
        }
    }

    /// The state after `action`: toggled by play/pause, unchanged by a skip
    /// in either direction.
    pub fn after(self, action: Action) -> (next: PlaybackState)
        ensures
            next == next_playback(self, action),
            action != Action::PlayPause ==> next == self,
            action == Action::PlayPause ==> next == toggled(self),
    {
        match action {
            Action::PlayPause => self.toggle(),
            Action::Forward => self,
            Action::Backward => self,
        }
    }

    /// The label of the centre button: `||` while paused, `|>` while playing.
    pub fn glyph(self) -> (label: &'static str)
        ensures
            label@ == glyph_chars(self),
    {
        match self {
            PlaybackState::Paused => {
                proof {
                    reveal_strlit("||");
                }
                assert("||"@ =~= glyph_chars(self));
                "||"
            },
            PlaybackState::Playing => {
                proof {
                    reveal_strlit("|>");
                }
                assert("|>"@ =~= glyph_chars(self));
                "|>"
            },
        }
    }
}

impl Default for PlaybackState {
    /// A fresh overlay shows the player as paused.
    fn default() -> (playback: PlaybackState)
        ensures
            playback == PlaybackState::Paused,
    {
        PlaybackState::Paused
    }
}

/// Everything the running overlay remembers.
#[derive(Clone, Copy, Debug, PartialEq, Eq, Structural)]
pub struct State {
    pub media_state: PlaybackState,
}

impl Default for State {
    /// The state at start-up: paused.
    fn default() -> (state: State)
        ensures
            state.media_state == PlaybackState::Paused,
    {
        State { media_state: PlaybackState::Paused }
    }
}

} // verus!
