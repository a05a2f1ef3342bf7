//! Overlay panes on a host surface: a registry of panes under never-reused
//! handles, placed through one global origin and zoom, behind a session
//! guard.
//!
//! The library touches no display itself. An operation that is admitted
//! answers with the work for the host and takes the guard of the session;
//! the guard is free again once `Session::finish` has been told how the work
//! went. Whatever is attempted in between fails with `Locked`.

use vstd::prelude::*;
use vstd::string::*;

pub mod class;
pub mod div_handle;
pub mod error;
pub mod global;
pub mod host;
pub mod laws;
pub mod model;
pub mod pane;
pub mod state;
pub mod storage;
pub mod style;
pub mod text;
pub mod transform;

pub use class::load::{
    build_class_loading_module, load_js_module, PendingClasses, PendingScript, Progress,
};
pub use class::{JsClass, JsClassHandle};
pub use div_handle::{DivHandle, PaneHandle};
pub use error::PanesError;
pub use global::{reposition, resize};
pub use host::{HostAction, HostReply, NodeRef};
pub use state::{Reply, Session};
pub use storage::Pane;
pub use transform::{AbsoluteRect, LocalRect, Ratio, Transform};

use state::planned;
use text::{declarations, join, joined, style_text, texts};

verus! {

/// Starts the initialisation of a session that is mounted to the document
/// body, with the global origin at `(0, 0)` and no reference size.
pub fn init(session: &mut Session) -> (r: Result<Vec<HostAction>, PanesError>)
    ensures
        planned(old(session)@, final(session)@, r, old(session)@.init(None, (0, 0), None)),
{
    init_ex(session, None, (0, 0), None)
}

/// Starts the initialisation of a session that is mounted to the element
/// with the given id, with the global origin at `(0, 0)` and no reference
/// size.
pub fn init_to(session: &mut Session, id: &str) -> (r: Result<Vec<HostAction>, PanesError>)
    ensures
        planned(old(session)@, final(session)@, r, old(session)@.init(Some(id@), (0, 0), None)),
{
    init_ex(session, Some(id), (0, 0), None)
}

/// Starts the initialisation of a session: mounted to the element with the
/// given id, or to the document body where none is given; with the global
/// origin at `pos`; and with `size` as the size of the global frame at which
/// the zoom is one, if a size is given.
///
/// Fails with `AlreadyInitialized` on a session that is initialised. The
/// session is initialised once the host has answered with the root.
pub fn init_ex(
    session: &mut Session,
    id: Option<&str>,
    pos: (u32, u32),
    size: Option<(u32, u32)>,
) -> (r: Result<Vec<HostAction>, PanesError>)
    ensures
        planned(old(session)@, final(session)@, r, old(session)@.init(host::opt_str(id), pos, size)),
{
    session.set_state(id, pos, size)
}

/// Starts the creation of a pane at `(x, y)` from the global origin, of size
/// `(w, h)`, with the given HTML as content.
///
/// The pane is registered, and its handle handed out by `Session::finish`,
/// once the host has answered with the display object.
pub fn new_pane(session: &mut Session, x: u32, y: u32, w: u32, h: u32, html: &str) -> (r: Result<
    Vec<HostAction>,
    PanesError,
>)
    ensures
        planned(
            old(session)@,
            final(session)@,
            r,
            old(session)@.begin(
                old(session)@.state->0.new_pane(x, y, w, h, html@, Seq::empty(), Seq::empty(), None),
            ),
        ),
{
    let css = "";
    let classes = "";
    proof {
        reveal_strlit("");
        assert(""@ =~= Seq::<char>::empty());
    }
    session.new_pane(x, y, w, h, html, classes, css, None)
}

/// Starts the creation of a pane with CSS classes and inline styles: the
/// classes are joined by blanks, and each pair of `css` becomes one
/// declaration of the style attribute.
pub fn new_styled_pane(
    session: &mut Session,
    x: u32,
    y: u32,
    w: u32,
    h: u32,
    html: &str,
    classes: &[&str],
    css: &[(&str, &str)],
) -> (r: Result<Vec<HostAction>, PanesError>)
    ensures
        planned(
            old(session)@,
            final(session)@,
            r,
            old(session)@.begin(
                old(session)@.state->0.new_pane(
                    x,
                    y,
                    w,
                    h,
                    html@,
                    joined(texts(classes@), " "@),
                    joined(declarations(css@), " "@),
                    None,
                ),
            ),
        ),
{
    let css_str = style_text(css);
    let classes_str = join(classes, " ");
    session.new_pane(x, y, w, h, html, classes_str.as_str(), css_str.as_str(), None)
}

/// Starts the loading of the class `name` from the script at `src`.
///
/// The class is registered at once. `Session::finish` hands out what to poll
/// to learn when the class is loaded.
pub fn load_js_class(session: &mut Session, name: &str, src: &str) -> (r: Result<
    Vec<HostAction>,
    PanesError,
>)
    ensures
        planned(
            old(session)@,
            final(session)@,
            r,
            old(session)@.begin(old(session)@.state->0.load(seq![name@], src@)),
        ),
{
    let classes = [name];
    proof {
        assert(texts(classes@) =~= seq![name@]);
    }
    load_js_classes(session, &classes, src)
}

/// Starts the loading of `classes` from the script at `src`.
pub fn load_js_classes(session: &mut Session, classes: &[&str], src: &str) -> (r: Result<
    Vec<HostAction>,
    PanesError,
>)
    ensures
        planned(
            old(session)@,
            final(session)@,
            r,
            old(session)@.begin(old(session)@.state->0.load(texts(classes@), src@)),
        ),
{
    session.load(classes, src)
}

/// Starts the creation of a pane that holds an instance of a class.
///
/// Fails with `NotAllocated` for a handle that is not one of the session's
/// classes.
pub fn from_js_class(
    session: &mut Session,
    x: u32,
    y: u32,
    w: u32,
    h: u32,
    class_handle: JsClassHandle,
) -> (r: Result<Vec<HostAction>, PanesError>)
    ensures
        planned(
            old(session)@,
            final(session)@,
            r,
            old(session)@.begin(
                old(session)@.state->0.new_pane(
                    x,
                    y,
                    w,
                    h,
                    Seq::empty(),
                    Seq::empty(),
                    Seq::empty(),
                    Some(class_handle),
                ),
            ),
        ),
{
    proof {
        reveal_strlit("");
        assert(""@ =~= Seq::<char>::empty());
    }
    session.new_pane(x, y, w, h, "", "", "", Some(class_handle))
}

impl JsClass {
    /// Starts the search for a class that is registered already, in the
    /// session or, as a component, on the host.
    ///
    /// `Session::finish` hands out the handle, or `None` where neither knows
    /// a class of that name.
    pub fn preregistered(session: &mut Session, name: &str) -> (r: Result<
        Vec<HostAction>,
        PanesError,
    >)
        ensures
            planned(
                old(session)@,
                final(session)@,
                r,
                old(session)@.begin(old(session)@.state->0.probe(name@)),
            ),
    {
        session.probe(name)
    }
}

} // verus!
