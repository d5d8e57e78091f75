//! The shell's decision rules: what to keep when the result channel is
//! polled, and what to put on screen for the result kept. The event loop,
//! the widgets and the drawing surface belong to the windowing
//! collaborator; it feeds these functions plain values each refresh tick.

use vstd::prelude::*;

use crate::doc::Frame;

verus! {

/// What the shell should show: a neutral placeholder prompt before any
/// result has arrived, the diagnostics as plain text for a failed
/// compile, or the frame on a canvas for a successful one.
pub enum ViewState {
    Placeholder,
    ErrorText(String),
    Canvas(Frame),
}

/// One non-blocking poll of the result channel: a newly arrived result
/// replaces the stored one, which is discarded, not merged; with nothing
/// new, the stored result stays. The shell thus always reflects the most
/// recently received result.
pub fn absorb_result(current: Option<Result<Frame, String>>, polled: Option<Result<Frame, String>>)
    -> (r: Option<Result<Frame, String>>)
    ensures
        polled is Some ==> r == polled,
        polled is None ==> r == current,
{
    match polled {
        Some(x) => Some(x),
        None => current,
    }
}

/// The display rule for the result the shell holds.
pub fn present(current: Option<Result<Frame, String>>) -> (v: ViewState)
    ensures
        current is None ==> v is Placeholder,
        current matches Some(Err(m)) ==> v matches ViewState::ErrorText(t) && t == m,
        current matches Some(Ok(f)) ==> v matches ViewState::Canvas(g) && g == f,
{
    match current {
        None => ViewState::Placeholder,
        Some(Err(m)) => ViewState::ErrorText(m),
        Some(Ok(f)) => ViewState::Canvas(f),
    }
}

} // verus!
