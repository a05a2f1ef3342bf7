//! Operations on the global frame that all panes stand in.

use vstd::prelude::*;
use crate::error::PanesError;
use crate::host::HostAction;
use crate::state::{planned, Session};

verus! {

/// Moves the global origin to `(x, y)`.
///
/// Every pane is placed anew at once, whether it is shown or hidden.
pub fn reposition(session: &mut Session, x: u32, y: u32) -> (r: Result<Vec<HostAction>, PanesError>)
    ensures
        planned(
            old(session)@,
            final(session)@,
            r,
            old(session)@.begin(old(session)@.state->0.global_reposition(x, y)),
        ),
{
    session.global_reposition(x, y)
}

/// Resizes the global frame to `(w, h)`.
///
/// Positions and sizes of all panes change in proportion, at once, whether
/// they are shown or hidden. This works only on a session that was given a
/// reference size when it was initialised; without one it fails with
/// `UndefinedSize` and changes nothing.
pub fn resize(session: &mut Session, w: u32, h: u32) -> (r: Result<Vec<HostAction>, PanesError>)
    ensures
        planned(
            old(session)@,
            final(session)@,
            r,
            old(session)@.begin(old(session)@.state->0.global_resize(w, h)),
        ),
{
    session.global_resize(w, h)
}

} // verus!
