//! The one error type of the library.

use vstd::prelude::*;
use vstd::string::*;

verus! {

/// Every way in which a call into the library can fail.
///
/// The library itself decides the handle, lifecycle, guard and size errors.
/// The remaining variants describe a host that is not as expected; the host
/// adapter reports them and the session hands them on unchanged.
#[derive(Debug, Clone, PartialEq, Eq)]
pub enum PanesError {
    UseAfterDelete,
    NotAllocated,
    NotInitialized,
    AlreadyInitialized,
    Locked,
    MissingBody,
    MissingHead,
    MissingWindow,
    MissingDocument,
    MissingRoot(String),
    MissingChild,
    BrowserError(String),
    JsError(String),
    JsCastError,
    UndefinedSize,
}

impl PanesError {
    /// The text shown for this error.
    pub open spec fn message_text(self) -> Seq<char> {
        match self {
            PanesError::UseAfterDelete => "This pane has already been deleted."@,
            PanesError::NotAllocated => "Invalid pane handle, pane has never been allocated."@,
            PanesError::Locked =>
                "The Panes-internal data structure has dead-locked itself. This is most likely a bug in Panes."@,
            PanesError::NotInitialized =>
                "Called panes functions before initializing it. Call panes::init() to initialize to body."@,
            PanesError::AlreadyInitialized =>
                "Panes has already been initialized, cannot do it again."@,
            PanesError::MissingBody => "No HTML body found."@,
            PanesError::MissingHead => "No HTML head found."@,
            PanesError::MissingWindow => "No Window."@,
            PanesError::MissingDocument => "No Document."@,
            PanesError::MissingRoot(id) => "HTML root element with id = "@ + id@ + " not found."@,
            PanesError::MissingChild => "DOM child is missing which has been inserted before."@,
            PanesError::UndefinedSize => "Pane has no size."@,
            PanesError::BrowserError(cause) => "A browser-call returned an error: "@ + cause@,
            PanesError::JsError(msg) => "JS error: "@ + msg@,
            PanesError::JsCastError => "JS Cast Error"@,
        }
    }

    /// Renders the error as a sentence for the user.
    pub fn message(&self) -> (text: String)
        ensures
            text@ == self.message_text(),
    {
        match self {
            PanesError::UseAfterDelete => String::from_str("This pane has already been deleted."),
            PanesError::NotAllocated => String::from_str(
                "Invalid pane handle, pane has never been allocated.",
            ),
            PanesError::Locked => String::from_str(
                "The Panes-internal data structure has dead-locked itself. This is most likely a bug in Panes.",
            ),
            PanesError::NotInitialized => String::from_str(
                "Called panes functions before initializing it. Call panes::init() to initialize to body.",
            ),
            PanesError::AlreadyInitialized => String::from_str(
                "Panes has already been initialized, cannot do it again.",
            ),
            PanesError::MissingBody => String::from_str("No HTML body found."),
            PanesError::MissingHead => String::from_str("No HTML head found."),
            PanesError::MissingWindow => String::from_str("No Window."),
            PanesError::MissingDocument => String::from_str("No Document."),
            PanesError::MissingRoot(id) => {
                let mut text = String::from_str("HTML root element with id = ");
                text.append(id.as_str());
                text.append(" not found.");
                text
            },
            PanesError::MissingChild => String::from_str(
                "DOM child is missing which has been inserted before.",
            ),
            PanesError::UndefinedSize => String::from_str("Pane has no size."),
            PanesError::BrowserError(cause) => {
                let mut text = String::from_str("A browser-call returned an error: ");
                text.append(cause.as_str());
                text
            },
            PanesError::JsError(msg) => {
                let mut text = String::from_str("JS error: ");
                text.append(msg.as_str());
                text
            },
            PanesError::JsCastError => String::from_str("JS Cast Error"),
        }
    }
}

} // verus!
