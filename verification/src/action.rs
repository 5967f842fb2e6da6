//! The three transport actions and the media keys that carry them to the
//! operating system.

use vstd::prelude::*;

verus! {

/// What the user asks for with one click on the overlay.
#[derive(Clone, Copy, Debug, PartialEq, Eq, Structural)]
pub enum Action {
    /// Skip to the next track.
    Forward,
    /// Go back to the previous track.
    Backward,
    /// Toggle between playing and paused.
    PlayPause,
}

/// A hardware media key.
#[derive(Clone, Copy, Debug, PartialEq, Eq, Structural)]
pub enum MediaKey {
    NextTrack,
    PrevTrack,
    PlayPause,
}

/// Which half of a key stroke an event is.
#[derive(Clone, Copy, Debug, PartialEq, Eq, Structural)]
pub enum Direction {
    Press,
    Release,
}

/// One synthetic key event to hand to the operating system.
#[derive(Clone, Copy, Debug, PartialEq, Eq, Structural)]
pub struct KeyEvent {
    pub key: MediaKey,
    pub direction: Direction,
}

/// The media key that stands for an action.
pub open spec fn media_key(action: Action) -> MediaKey {
    match action {
        Action::Forward => MediaKey::NextTrack,
        Action::Backward => MediaKey::PrevTrack,
        Action::PlayPause => MediaKey::PlayPause,
    }
}

/// The key events that one action sends, in the order in which they are
/// sent: the press of its key, then the release of the same key.
pub open spec fn key_sequence(action: Action) -> Seq<KeyEvent> {
    seq![
        KeyEvent { key: media_key(action), direction: Direction::Press },
        KeyEvent { key: media_key(action), direction: Direction::Release },
    ]
}

impl Action {
    /// The media key that this action presses and releases.
    pub fn key(self) -> (key: MediaKey)
        ensures
            key == media_key(self),
    {
        match self {
            Action::Forward => MediaKey::NextTrack,
            Action::Backward => MediaKey::PrevTrack,
            Action::PlayPause => MediaKey::PlayPause,
        }
    }
}

/// The key events to inject for `action`, first to last: exactly one press
/// followed by one release of the action's key.
pub fn key_events(action: Action) -> (events: Vec<KeyEvent>)
    ensures
        events@ == key_sequence(action),
        events@.len() == 2,
        events@[0] == (KeyEvent { key: media_key(action), direction: Direction::Press }),
        events@[1] == (KeyEvent { key: media_key(action), direction: Direction::Release }),
{
    let key = action.key();
    let mut events: Vec<KeyEvent> = Vec::new();
    events.push(KeyEvent { key, direction: Direction::Press });
    events.push(KeyEvent { key, direction: Direction::Release });
    assert(events@ =~= key_sequence(action));
    events
}

} // verus!
