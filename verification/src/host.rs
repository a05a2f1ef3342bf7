//! What passes between the library and the host surface.
//!
//! The library never touches the display. An operation hands out a list of
//! `HostAction`s; the host adapter carries them out in order, stops at the
//! first that fails, and reports the outcome to `Session::finish`.

use vstd::prelude::*;
use crate::transform::AbsoluteRect;

verus! {

/// A reference to a display object that the host owns.
///
/// The host picks the number when it creates or finds the object; the library
/// only stores it and hands it back.
#[derive(Clone, Copy, Debug, PartialEq, Eq, Hash, Structural)]
pub struct NodeRef(pub u64);

/// One piece of work for the host.
#[derive(Clone, Debug, PartialEq, Eq)]
pub enum HostAction {
    /// Find the attachment root, the element with the given id or else the
    /// document body, and install the style sheet. Answered with the root.
    Mount { root_id: Option<String>, stylesheet: String },
    /// Create a display object with this class name, content and style
    /// attribute, attach it to the root and place it at `rect`; where a
    /// component is named, instantiate it inside. Answered with the object.
    CreateNode {
        class_name: String,
        html: String,
        style: String,
        rect: AbsoluteRect,
        component: Option<String>,
    },
    /// Attach a detached display object to the root again.
    Attach { node: NodeRef },
    /// Detach a display object from the root, keeping it alive.
    Detach { node: NodeRef },
    /// Give up a display object for good.
    Release { node: NodeRef },
    /// Move and size a display object to `rect`.
    Place { node: NodeRef, rect: AbsoluteRect },
    /// Set one style property of a display object.
    SetStyleProperty { node: NodeRef, name: String, value: String },
    /// Add a class to a display object.
    AddClass { node: NodeRef, class: String },
    /// Remove a class from a display object.
    RemoveClass { node: NodeRef, class: String },
    /// Run this text as a script module.
    InjectModule { code: String },
    /// Say whether the host knows a component of this name. Answered with
    /// `HostReply::Exists`.
    ProbeComponent { name: String },
}

/// What a `HostAction` says, with every text as a sequence of characters.
#[verifier::ext_equal]
pub enum Work {
    Mount { root_id: Option<Seq<char>>, stylesheet: Seq<char> },
    CreateNode {
        class_name: Seq<char>,
        html: Seq<char>,
        style: Seq<char>,
        rect: AbsoluteRect,
        component: Option<Seq<char>>,
    },
    Attach { node: NodeRef },
    Detach { node: NodeRef },
    Release { node: NodeRef },
    Place { node: NodeRef, rect: AbsoluteRect },
    SetStyleProperty { node: NodeRef, name: Seq<char>, value: Seq<char> },
    AddClass { node: NodeRef, class: Seq<char> },
    RemoveClass { node: NodeRef, class: Seq<char> },
    InjectModule { code: Seq<char> },
    ProbeComponent { name: Seq<char> },
}

/// The characters of an optional text.
pub open spec fn opt_text(s: Option<String>) -> Option<Seq<char>> {
    match s {
        Some(t) => Some(t@),
        None => None,
    }
}

/// The characters of an optional borrowed text.
pub open spec fn opt_str(s: Option<&str>) -> Option<Seq<char>> {
    match s {
        Some(t) => Some(t@),
        None => None,
    }
}

impl View for HostAction {
    type V = Work;

    open spec fn view(&self) -> Work {
        match *self {
            HostAction::Mount { root_id, stylesheet } => Work::Mount {
                root_id: opt_text(root_id),
                stylesheet: stylesheet@,
            },
            HostAction::CreateNode { class_name, html, style, rect, component } => Work::CreateNode {
                class_name: class_name@,
                html: html@,
                style: style@,
                rect,
                component: opt_text(component),
            },
            HostAction::Attach { node } => Work::Attach { node },
            HostAction::Detach { node } => Work::Detach { node },
            HostAction::Release { node } => Work::Release { node },
            HostAction::Place { node, rect } => Work::Place { node, rect },
            HostAction::SetStyleProperty { node, name, value } => Work::SetStyleProperty {
                node,
                name: name@,
                value: value@,
            },
            HostAction::AddClass { node, class } => Work::AddClass { node, class: class@ },
            HostAction::RemoveClass { node, class } => Work::RemoveClass { node, class: class@ },
            HostAction::InjectModule { code } => Work::InjectModule { code: code@ },
            HostAction::ProbeComponent { name } => Work::ProbeComponent { name: name@ },
        }
    }
}

impl DeepView for HostAction {
    type V = Work;

    open spec fn deep_view(&self) -> Work {
        self@
    }
}

/// What the host answers once it has carried out the actions of an operation.
#[derive(Clone, Copy, Debug, PartialEq, Eq, Structural)]
pub enum HostReply {
    /// Everything was done; there is nothing to hand back.
    Done,
    /// Everything was done; this is the object that was found or created.
    Node(NodeRef),
    /// The answer to a `ProbeComponent`.
    Exists(bool),
}

} // verus!
