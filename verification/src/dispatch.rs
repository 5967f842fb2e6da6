//! Handling one action from click to new state.
//!
//! The caller injects the key events of [`key_events`] in order, each
//! whether or not the one before it went through, and hands the two outcomes
//! to [`update`]. Nothing that can go wrong with an injection stops the
//! action from being handled.
//!
//! [`key_events`]: crate::action::key_events

use vstd::prelude::*;
use crate::action::Action;
use crate::playback::{next_playback, toggled, PlaybackState, State};
use crate::report::{failure_lines, failure_report, lines_for, Injection};

verus! {

/// What handling one action leaves behind.
pub struct Handled {
    /// The state of the overlay afterwards.
    pub state: State,
    /// The lines to show the operator, first to last.
    pub lines: Seq<Seq<char>>,
}

/// What comes of handling `action` in `state` when the press and the release
/// of its key ended as `press` and `release` say: the state moves as the
/// action alone demands, and every failed attempt leaves one line.
pub open spec fn handled(state: State, action: Action, press: Injection, release: Injection)
    -> Handled {
    Handled {
        state: State { media_state: next_playback(state.media_state, action) },
        lines: failure_lines(action, press, release),
    }
}

/// Finishes the handling of `action` once its press and its release have
/// been attempted.
///
/// The state moves as the action says and as nothing else does: play/pause
/// toggles it, a skip leaves it as it was, and neither outcome has a say in
/// it. The result holds the lines to show the operator, one for each attempt
/// that failed, the press before the release.
pub fn update(state: &mut State, action: Action, press: Injection, release: Injection) -> (lines:
    Vec<String>)
    ensures
        *final(state) == handled(*old(state), action, press, release).state,
        lines.deep_view() == handled(*old(state), action, press, release).lines,
        action == Action::PlayPause ==> final(state).media_state == toggled(
            old(state).media_state,
        ),
        action != Action::PlayPause ==> *final(state) == *old(state),
        press is Ok && release is Ok ==> lines@.len() == 0,
{
    let mut lines: Vec<String> = Vec::new();
    if let Err(cause) = &press {
        lines.push(failure_report(action, cause.as_str()));
    }
    assert(lines.deep_view() =~= lines_for(action, press));
    if let Err(cause) = &release {
        lines.push(failure_report(action, cause.as_str()));
    }
    assert(lines.deep_view() =~= failure_lines(action, press, release));
    state.media_state = state.media_state.after(action);
    lines
}

/// A skip forward or backward leaves the state as it was, however its two
/// injections ended.
pub proof fn lemma_skip_keeps_state(
    state: State,
    action: Action,
    press: Injection,
    release: Injection,
)
    requires
        action == Action::Forward || action == Action::Backward,
    ensures
        handled(state, action, press, release).state == state,
{
}

/// Play/pause turns paused into playing and playing into paused, however
/// its two injections ended.
pub proof fn lemma_play_pause_toggles(state: State, press: Injection, release: Injection)
    ensures
        state.media_state == PlaybackState::Paused ==> handled(
            state,
            Action::PlayPause,
            press,
            release,
        ).state.media_state == PlaybackState::Playing,
        state.media_state == PlaybackState::Playing ==> handled(
            state,
            Action::PlayPause,
            press,
            release,
        ).state.media_state == PlaybackState::Paused,
{
}

/// Play/pause handled twice leads back to the state one started from,
/// however the four injections ended.
pub proof fn lemma_play_pause_twice(
    state: State,
    first_press: Injection,
    first_release: Injection,
    second_press: Injection,
    second_release: Injection,
)
    ensures
        handled(
            handled(state, Action::PlayPause, first_press, first_release).state,
            Action::PlayPause,
            second_press,
            second_release,
        ).state == state,
{
}

/// A failed injection is reported and changes nothing else: the state that
/// follows is the one that would have followed had both events been
/// delivered, and at least one line tells of the failure. After a failed
/// skip forward the state is the one before it.
pub proof fn lemma_failure_is_not_fatal(
    state: State,
    action: Action,
    press: Injection,
    release: Injection,
)
    requires
        press is Err || release is Err,
    ensures
        handled(state, action, press, release).state == handled(
            state,
            action,
            Ok(()),
            Ok(()),
        ).state,
        handled(state, action, press, release).lines.len() >= 1,
        action == Action::Forward ==> handled(state, action, press, release).state == state,
{
}

/// When both events are delivered there is nothing to report.
pub proof fn lemma_delivered_is_silent(state: State, action: Action)
    ensures
        handled(state, action, Ok(()), Ok(())).lines.len() == 0,
{
}

} // verus!
