//! Handles, and the operations on the pane behind a handle.
//!
//! Every operation that changes a pane needs the guard of the session and an
//! initialised session. It answers with the work for the host and keeps the
//! guard until `Session::finish` is told how that work went.

use vstd::prelude::*;
use crate::error::PanesError;
use crate::host::{HostAction, NodeRef};
use crate::state::{answered, planned, Session};

verus! {

/// A light-weight key to a pane.
///
/// A handle wraps the index under which the pane was registered. Indices are
/// issued in rising order and never issued twice, so a handle stays tied to
/// its pane and turns invalid for good once the pane is deleted. A handle can
/// be made from any index: every operation checks the handle it is given.
#[derive(Debug, Clone, Copy, PartialEq, Eq, Hash, Structural)]
pub struct DivHandle(pub usize);

/// The name under which handles are known to callers that speak of panes.
pub type PaneHandle = DivHandle;

impl DivHandle {
    /// Hides the pane: its display object is detached from the root, and
    /// kept. Show the pane again with `show`, or give it up with `delete`.
    pub fn hide_pane(&self, session: &mut Session) -> (r: Result<Vec<HostAction>, PanesError>)
        ensures
            planned(
                old(session)@,
                final(session)@,
                r,
                old(session)@.begin(old(session)@.state->0.hide_pane(*self)),
            ),
    {
        session.hide_pane(self)
    }

    /// Shows the pane again after it was hidden.
    pub fn show(&self, session: &mut Session) -> (r: Result<Vec<HostAction>, PanesError>)
        ensures
            planned(
                old(session)@,
                final(session)@,
                r,
                old(session)@.begin(old(session)@.state->0.show_pane(*self)),
            ),
    {
        session.show_pane(self)
    }

    /// Moves the pane by `(x, y)`, in the scale of the reference size.
    pub fn reposition(&self, session: &mut Session, x: u32, y: u32) -> (r: Result<
        Vec<HostAction>,
        PanesError,
    >)
        ensures
            planned(
                old(session)@,
                final(session)@,
                r,
                old(session)@.begin(
                    old(session)@.state->0.update_pane(*self, Some(x), Some(y), None, None),
                ),
            ),
    {
        session.update_pane(self, Some(x), Some(y), None, None)
    }

    /// Gives the pane the size `(w, h)`, in the scale of the reference size.
    pub fn resize(&self, session: &mut Session, w: u32, h: u32) -> (r: Result<
        Vec<HostAction>,
        PanesError,
    >)
        ensures
            planned(
                old(session)@,
                final(session)@,
                r,
                old(session)@.begin(
                    old(session)@.state->0.update_pane(*self, None, None, Some(w), Some(h)),
                ),
            ),
    {
        session.update_pane(self, None, None, Some(w), Some(h))
    }

    /// Moves the pane by `(x, y)` and gives it the size `(w, h)` in one
    /// operation, so that the host places it once.
    pub fn reposition_and_resize(&self, session: &mut Session, x: u32, y: u32, w: u32, h: u32) -> (r:
        Result<Vec<HostAction>, PanesError>)
        ensures
            planned(
                old(session)@,
                final(session)@,
                r,
                old(session)@.begin(
                    old(session)@.state->0.update_pane(*self, Some(x), Some(y), Some(w), Some(h)),
                ),
            ),
    {
        session.update_pane(self, Some(x), Some(y), Some(w), Some(h))
    }

    /// The work that sets a style property of the pane. The session is only
    /// read, and the guard is not taken.
    pub fn set_css(&self, session: &Session, property: &str, value: &str) -> (r: Result<
        HostAction,
        PanesError,
    >)
        ensures
            answered(r, session@.read(session@.state->0.set_css(*self, property@, value@))),
    {
        session.set_css(self, property, value)
    }

    /// The work that adds a class to the pane. The session is only read.
    pub fn add_class(&self, session: &Session, css_class: &str) -> (r: Result<HostAction, PanesError>)
        ensures
            answered(r, session@.read(session@.state->0.add_class(*self, css_class@))),
    {
        session.add_class(self, css_class)
    }

    /// The work that removes a class from the pane. The session is only
    /// read.
    pub fn remove_class(&self, session: &Session, css_class: &str) -> (r: Result<
        HostAction,
        PanesError,
    >)
        ensures
            answered(r, session@.read(session@.state->0.remove_class(*self, css_class@))),
    {
        session.remove_class(self, css_class)
    }

    /// Deletes the pane: it is hidden first, then taken out of the registry
    /// and its display object is given up. The handle is invalid afterwards.
    pub fn delete(&mut self, session: &mut Session) -> (r: Result<Vec<HostAction>, PanesError>)
        ensures
            *final(self) == *old(self),
            planned(
                old(session)@,
                final(session)@,
                r,
                old(session)@.begin(old(session)@.state->0.delete_pane(*old(self))),
            ),
    {
        session.delete_pane(self)
    }

    /// The display object of the pane. What was handed over as content when
    /// the pane was created is inside it.
    pub fn parent_element(&self, session: &Session) -> (r: Result<NodeRef, PanesError>)
        ensures
            r == session@.read(session@.state->0.node(*self)),
    {
        session.get_node(self)
    }
}

} // verus!
