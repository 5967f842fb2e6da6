use indium::action::Action;
use indium::playback::{PlaybackState, State};

#[test]
fn the_overlay_starts_paused() {
    assert_eq!(State::default().media_state, PlaybackState::Paused);
    assert_eq!(PlaybackState::default(), PlaybackState::Paused);
}

#[test]
fn toggle_flips() {
    assert_eq!(PlaybackState::Paused.toggle(), PlaybackState::Playing);
    assert_eq!(PlaybackState::Playing.toggle(), PlaybackState::Paused);
}

#[test]
fn after_play_pause_is_the_other_state() {
    assert_eq!(PlaybackState::Paused.after(Action::PlayPause), PlaybackState::Playing);
    assert_eq!(PlaybackState::Playing.after(Action::PlayPause), PlaybackState::Paused);
}

#[test]
fn after_a_skip_is_the_same_state() {
    for playback in [PlaybackState::Paused, PlaybackState::Playing] {
        assert_eq!(playback.after(Action::Forward), playback);
        assert_eq!(playback.after(Action::Backward), playback);
    }
}

#[test]
fn glyphs() {
    assert_eq!(PlaybackState::Paused.glyph(), "||");
    assert_eq!(PlaybackState::Playing.glyph(), "|>");
}
