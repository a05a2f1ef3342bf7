//! Loading script modules: the text of a loader module, and the ticket by
//! which the caller learns that a load has finished.
//!
//! A load starts as soon as the host runs the module, whether or not anyone
//! asks about it afterwards, and it cannot be taken back. Loads are told apart
//! only by counting: the load with ticket `t` counts as finished once more
//! than `t` loads have finished, on the understanding that loads finish in
//! the order in which they were started.

use vstd::prelude::*;
use vstd::string::*;
use crate::class::JsClassHandle;
use crate::error::PanesError;
use crate::host::HostAction;
use crate::state::{planned, Session};
use crate::text::{join, joined, texts};

verus! {

/// The line of a loader module that registers one class.
pub open spec fn spec_registration(class: Seq<char>) -> Seq<char> {
    "\nwindow.__div_rs.svcom."@ + class + " = classes."@ + class + ";"@
}

/// The lines that register each class of a list.
pub open spec fn spec_registrations(classes: Seq<Seq<char>>) -> Seq<char>
    decreases classes.len(),
{
    if classes.len() == 0 {
        Seq::empty()
    } else {
        spec_registrations(classes.drop_last()) + spec_registration(classes.last())
    }
}

/// The text of the module that imports `classes` from `src` and registers
/// each of them.
pub open spec fn spec_class_loading_module(classes: Seq<Seq<char>>, src: Seq<char>) -> Seq<char> {
    "import {"@ + joined(classes, ", "@) + "} from '"@ + src
        + "';\nwindow.__div_rs = window.__div_rs || {svcom: {}, loaded: 0};"@
        + spec_registrations(classes)
}

/// The text of a module followed by the lines that count it as loaded.
pub open spec fn spec_counted_module(code: Seq<char>) -> Seq<char> {
    code + "\nwindow.__div_rs = window.__div_rs || {};"@
        + "\nwindow.__div_rs.loaded = (window.div.loaded || 0) + 1;"@
}

/// The ticket that follows `ticket`; the count starts over after the largest.
pub open spec fn spec_next_ticket(ticket: i32) -> i32 {
    if ticket == i32::MAX {
        i32::MIN
    } else {
        (ticket + 1) as i32
    }
}

/// Writes the module that imports `classes` from `src` and registers them.
pub fn build_class_loading_module(classes: &[&str], src: &str) -> (code: String)
    ensures
        code@ == spec_class_loading_module(texts(classes@), src@),
{
    let mut code = String::from_str("import {");
    let list = join(classes, ", ");
    code.append(list.as_str());
    code.append("} from '");
    code.append(src);
    code.append("';\nwindow.__div_rs = window.__div_rs || {svcom: {}, loaded: 0};");
    let ghost head = code@;
    let mut i: usize = 0;
    while i < classes.len()
        invariant
            i <= classes.len(),
            code@ == head + spec_registrations(texts(classes@).take(i as int)),
        decreases classes.len() - i,
    {
        let ghost all = texts(classes@);
        let ghost before = code@;
        proof {
            assert(all.take(i as int + 1).drop_last() == all.take(i as int));
            assert(all.take(i as int + 1).last() == classes@[i as int]@);
        }
        code.append("\nwindow.__div_rs.svcom.");
        code.append(classes[i]);
        code.append(" = classes.");
        code.append(classes[i]);
        code.append(";");
        proof {
            assert(code@ == before + spec_registration(classes@[i as int]@));
            assert(code@ == head + (spec_registrations(all.take(i as int)) + spec_registration(
                classes@[i as int]@,
            )));
        }
        i += 1;
    }
    proof {
        assert(texts(classes@).take(classes.len() as int) == texts(classes@));
    }
    code
}

/// Appends to a module the lines that count it as loaded once it has run.
pub fn counted_module(code: String) -> (out: String)
    ensures
        out@ == spec_counted_module(code@),
{
    let mut out = code;
    out.append("\nwindow.__div_rs = window.__div_rs || {};");
    out.append("\nwindow.__div_rs.loaded = (window.div.loaded || 0) + 1;");
    out
}

/// Starts the loading of a script module: the host is handed the text of
/// the module, followed by the lines that count it as loaded.
///
/// This needs the guard of the session, but no initialised session.
/// `Session::finish` hands out what to poll to learn when the module is
/// loaded.
pub fn load_js_module(session: &mut Session, code: String) -> (r: Result<Vec<HostAction>, PanesError>)
    ensures
        planned(old(session)@, final(session)@, r, old(session)@.load_module(code@)),
{
    session.load_module(code)
}

/// The ticket that follows `ticket`.
pub fn next_ticket(ticket: i32) -> (next: i32)
    ensures
        next == spec_next_ticket(ticket),
        ticket < i32::MAX ==> next > ticket,
{
    if ticket == i32::MAX {
        i32::MIN
    } else {
        ticket + 1
    }
}

/// The state of something that is waited for: there, or still outstanding.
#[derive(Debug, PartialEq, Eq)]
pub enum Progress<T, W> {
    /// It is there. The value that waited is used up.
    Ready(T),
    /// Not yet. Here is the value to ask again with.
    Pending(W),
}

/// A script module that the host has been handed, waiting to be loaded.
///
/// The value cannot be copied: whoever holds it is the one who may still be
/// told that the script is loaded, and is told so once.
#[derive(Debug, PartialEq, Eq, Structural)]
pub struct PendingScript {
    /// The number of loads that were started before this one.
    pub ticket: i32,
}

impl PendingScript {
    /// Whether the load is finished when `loaded` loads are.
    pub open spec fn ready_at(self, loaded: i32) -> bool {
        loaded > self.ticket
    }

    /// Asks whether the script is loaded, given the number of loads that the
    /// host has finished so far. Asking changes nothing and wakes nobody: a
    /// caller that is told `Pending` gets the script back and has to ask
    /// again later. `Ready` uses the script up, so it is answered once.
    pub fn poll(self, loaded: i32) -> (r: Progress<(), PendingScript>)
        ensures
            self.ready_at(loaded) ==> r == Progress::<(), PendingScript>::Ready(()),
            !self.ready_at(loaded) ==> r == Progress::<(), PendingScript>::Pending(self),
    {
        if loaded > self.ticket {
            Progress::Ready(())
        } else {
            Progress::Pending(self)
        }
    }
}

/// Classes that were asked for from a script module, waiting for the module
/// to be loaded.
#[derive(Debug, PartialEq, Eq)]
pub struct PendingClasses {
    /// The load that brings the classes.
    pub script: PendingScript,
    /// The handles under which the classes are registered already.
    pub handles: Vec<JsClassHandle>,
}

impl PendingClasses {
    /// Asks whether the classes are loaded, given the number of loads that
    /// the host has finished so far. `Ready` hands out their handles and
    /// uses the value up; `Pending` hands the value back to ask again with.
    pub fn poll(self, loaded: i32) -> (r: Progress<Vec<JsClassHandle>, PendingClasses>)
        ensures
            self.script.ready_at(loaded) ==> r == Progress::<
                Vec<JsClassHandle>,
                PendingClasses,
            >::Ready(self.handles),
            !self.script.ready_at(loaded) ==> r == Progress::<
                Vec<JsClassHandle>,
                PendingClasses,
            >::Pending(self),
    {
        if loaded > self.script.ticket {
            Progress::Ready(self.handles)
        } else {
            Progress::Pending(self)
        }
    }
}

} // verus!
