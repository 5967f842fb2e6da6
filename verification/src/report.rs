//! The diagnostic line for a key event that the operating system did not
//! take.

use vstd::prelude::*;
use vstd::string::StringExecFns;
use crate::action::Action;

verus! {

/// What an action was trying to do, as the diagnostic line words it.
pub open spec fn attempt(action: Action) -> Seq<char> {
    match action {
        Action::Forward => "skip track"@,
        Action::Backward => "move back a track"@,
        Action::PlayPause => "pause / play track"@,
    }
}

/// The diagnostic line for a failed injection: a fixed opening, what the
/// action was trying to do, a colon and a space, and the cause as it was
/// given.
pub open spec fn report_text(action: Action, cause: Seq<char>) -> Seq<char> {
    "Error while trying to "@ + attempt(action) + ": "@ + cause
}

/// The outcome of one injection attempt: `Ok` when the operating system took
/// the event, `Err` with the cause when it did not.
pub type Injection = Result<(), String>;

/// The lines to report for the outcome of one attempt: none when it went
/// well, the one line for its cause when it failed.
pub open spec fn lines_for(action: Action, outcome: Injection) -> Seq<Seq<char>> {
    match outcome {
        Ok(_) => Seq::empty(),
        Err(cause) => seq![report_text(action, cause@)],
    }
}

/// The lines to report for one action, in order: the line for a failed
/// press, if it failed, then the line for a failed release, if it failed.
pub open spec fn failure_lines(action: Action, press: Injection, release: Injection) -> Seq<
    Seq<char>,
> {
    lines_for(action, press) + lines_for(action, release)
}

impl Action {
    /// What this action was trying to do, for the diagnostic line.
    pub fn describe(self) -> (words: &'static str)
        ensures
            words@ == attempt(self),
    {
        match self {
            Action::Forward => "skip track",
            Action::Backward => "move back a track",
            Action::PlayPause => "pause / play track",
        }
    }
}

/// The diagnostic line for an injection that failed with `cause` while
/// `action` was being carried out.
pub fn failure_report(action: Action, cause: &str) -> (line: String)
    ensures
        line@ == report_text(action, cause@),
{
    let mut line = String::from_str("Error while trying to ");
    line.append(action.describe());
    line.append(": ");
    line.append(cause);
    line
}

} // verus!
