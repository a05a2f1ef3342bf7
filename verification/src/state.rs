//! The session: the one mutable state of the library, and the guard that
//! lets one operation at a time work on it.
//!
//! An operation that is admitted takes the guard and answers with the work
//! for the host. The guard stays taken until `Session::finish` is told how
//! that work went; whatever is attempted in between fails with `Locked`.

use vstd::prelude::*;
use vstd::string::*;
use crate::class::load::{next_ticket, PendingClasses, PendingScript};
use crate::class::{name_places, place, places, JsClassHandle, JsClassStorage};
use crate::div_handle::DivHandle;
use crate::error::PanesError;
use crate::host::{HostAction, HostReply, NodeRef, Work};
use crate::model::{Outcome, Plan, SessionModel, StateModel, Waiting};
use crate::pane::Planned;
use crate::storage::{Pane, PaneStorage};
use crate::transform::{AbsoluteRect, LocalRect, Transform};

verus! {

/// What `Session::finish` hands back.
#[derive(Debug, PartialEq, Eq)]
pub enum Reply {
    /// The operation is complete and has nothing to hand out.
    Done,
    /// A pane was registered under this handle.
    Pane(DivHandle),
    /// The class that was asked for by name, if there is one.
    Class(Option<JsClassHandle>),
    /// A load was started; poll this to learn when it has finished.
    Loading(PendingClasses),
}

impl View for Reply {
    type V = Outcome;

    open spec fn view(&self) -> Outcome {
        match *self {
            Reply::Done => Outcome::Done,
            Reply::Pane(h) => Outcome::Pane(h),
            Reply::Class(c) => Outcome::Class(place(c)),
            Reply::Loading(p) => Outcome::Loading {
                ticket: p.script.ticket,
                handles: places(p.handles@),
            },
        }
    }
}

/// What the operation that holds the guard is waiting to do.
#[derive(Debug)]
pub(crate) enum Pending {
    Init { pos: (u32, u32), size: Option<(u32, u32)> },
    Create { local: LocalRect },
    Hide { handle: DivHandle },
    Show { handle: DivHandle },
    Delete { handle: DivHandle },
    Settle,
    Load { handles: Vec<JsClassHandle> },
    Probe { name: String },
    Known { class: JsClassHandle },
}

impl Pending {
    pub(crate) open spec fn view(&self) -> Waiting {
        match *self {
            Pending::Init { pos, size } => Waiting::Init { pos, size },
            Pending::Create { local } => Waiting::Create { local },
            Pending::Hide { handle } => Waiting::Hide { handle },
            Pending::Show { handle } => Waiting::Show { handle },
            Pending::Delete { handle } => Waiting::Delete { handle },
            Pending::Settle => Waiting::Settle,
            Pending::Load { handles } => Waiting::Load { handles: places(handles@) },
            Pending::Probe { name } => Waiting::Probe { name: name@ },
            Pending::Known { class } => Waiting::Known { class: class.index as int },
        }
    }
}

/// The state of an initialised session.
#[derive(Debug)]
pub(crate) struct GlobalState {
    pub(crate) root: NodeRef,
    pub(crate) transform: Transform,
    pub(crate) size: Option<(u32, u32)>,
    pub(crate) nodes: PaneStorage,
    pub(crate) classes: JsClassStorage,
}

impl GlobalState {
    pub(crate) open spec fn view(&self) -> StateModel {
        StateModel {
            root: self.root,
            transform: self.transform,
            size: self.size,
            panes: self.nodes@,
            classes: self.classes@,
        }
    }
}

/// Whether the session went from `before` to `after`, with the result `r`,
/// as `plan` says: the work is handed out and the session is as planned, or
/// the error is handed out and the session is as it was. The session is
/// well-formed before and after.
pub open spec fn planned(
    before: SessionModel,
    after: SessionModel,
    r: Result<Vec<HostAction>, PanesError>,
    plan: Plan,
) -> bool {
    &&& before.wf()
    &&& after.wf()
    &&& match plan {
        Ok((next, work)) => r is Ok && r->Ok_0.deep_view() =~= work && after =~= next,
        Err(e) => r is Err && r->Err_0 == e && after =~= before,
    }
}

/// Whether `r` is the one piece of work, or the error, that `answer` says.
pub open spec fn answered(r: Result<HostAction, PanesError>, answer: Result<Work, PanesError>) -> bool {
    match answer {
        Ok(work) => r is Ok && r->Ok_0@ =~= work,
        Err(e) => r is Err && r->Err_0 == e,
    }
}

/// Whether `r` is what `outcome` says: the same error, or a reply whose
/// view is the outcome. For a load that was started, the handles that are
/// handed out name, one by one, the places that the outcome gives.
pub open spec fn finished(r: Result<Reply, PanesError>, outcome: Result<Outcome, PanesError>) -> bool {
    match outcome {
        Ok(o) => {
            &&& r is Ok
            &&& r->Ok_0@ =~= o
            &&& match (r->Ok_0, o) {
                (Reply::Loading(p), Outcome::Loading { handles, .. }) => name_places(
                    p.handles@,
                    handles,
                ),
                _ => true,
            }
        },
        Err(e) => r is Err && r->Err_0 == e,
    }
}

/// The session: at most one state, one guard, and the count of loads.
#[derive(Debug)]
pub struct Session {
    state: Option<GlobalState>,
    pending: Option<Pending>,
    tickets: i32,
}

impl View for Session {
    type V = SessionModel;

    closed spec fn view(&self) -> SessionModel {
        SessionModel {
            state: match self.state {
                Some(s) => Some(s@),
                None => None,
            },
            waiting: match self.pending {
                Some(p) => Some(p@),
                None => None,
            },
            tickets: self.tickets,
        }
    }
}

impl Session {
    #[verifier::type_invariant]
    closed spec fn inv(&self) -> bool {
        self@.wf()
    }

    /// A session that is not initialised, with the guard free and no load
    /// started.
    pub fn new() -> (s: Session)
        ensures
            s@ == SessionModel::fresh(),
            s@.wf(),
    {
        Session { state: None, pending: None, tickets: 0 }
    }

    /// Whether an operation holds the guard.
    pub fn is_locked(&self) -> (b: bool)
        ensures
            b == self@.locked(),
            self@.wf(),
    {
        proof {
            use_type_invariant(self);
        }
        self.pending.is_some()
    }

    /// Whether the session is initialised.
    pub fn is_initialized(&self) -> (b: bool)
        ensures
            b == self@.initialized(),
    {
        self.state.is_some()
    }

    /// The ticket that the next load gets.
    pub fn tickets(&self) -> (t: i32)
        ensures
            t == self@.tickets,
    {
        self.tickets
    }

    /// The global origin and zoom, once the session is initialised.
    pub fn transform(&self) -> (t: Option<Transform>)
        ensures
            t == match self@.state {
                Some(s) => Some(s.transform),
                None => None,
            },
    {
        match &self.state {
            Some(s) => Some(s.transform),
            None => None,
        }
    }

    /// Checks that an operation on the state may start: the guard is free
    /// and the session is initialised.
    fn gate(&self) -> (r: Result<(), PanesError>)
        ensures
            self@.wf(),
            match self@.refusal() {
                Some(e) => r == Err::<(), PanesError>(e),
                None => r is Ok,
            },
    {
        proof {
            use_type_invariant(self);
        }
        if self.pending.is_some() {
            Err(PanesError::Locked)
        } else if self.state.is_none() {
            Err(PanesError::NotInitialized)
        } else {
            Ok(())
        }
    }

    /// Takes the state out of the session for an operation to work on.
    fn take_state(&mut self) -> (r: Result<GlobalState, PanesError>)
        ensures
            old(self)@.wf(),
            match old(self)@.refusal() {
                Some(e) => r is Err && r->Err_0 == e && final(self)@ =~= old(self)@,
                None => r is Ok && old(self)@.state == Some(r->Ok_0@) && final(self)@
                    =~= SessionModel::of(None, None, old(self)@.tickets),
            },
    {
        if let Err(e) = self.gate() {
            return Err(e);
        }
        let mut state: Option<GlobalState> = None;
        core::mem::swap(&mut state, &mut self.state);
        Ok(state.unwrap())
    }

    /// Puts the state back after an operation has planned on it, and takes
    /// the guard if there is something to wait for.
    fn put_back(&mut self, state: GlobalState, r: Planned) -> (out: Result<Vec<HostAction>, PanesError>)
        requires
            old(self)@.state is None,
            old(self)@.waiting is None,
            r is Ok ==> SessionModel::of(Some(state@), Some(r->Ok_0.1@), old(self)@.tickets).wf(),
        ensures
            match r {
                Ok((actions, pending)) => out == Ok::<Vec<HostAction>, PanesError>(actions)
                    && final(self)@ =~= SessionModel::of(
                    Some(state@),
                    Some(pending@),
                    old(self)@.tickets,
                ),
                Err(e) => out == Err::<Vec<HostAction>, PanesError>(e) && final(self)@
                    =~= SessionModel::of(Some(state@), None, old(self)@.tickets),
            },
            final(self)@.wf(),
    {
        state.nodes.well_formed();
        self.state = Some(state);
        let out = match r {
            Ok((actions, pending)) => {
                self.pending = Some(pending);
                Ok(actions)
            },
            Err(e) => Err(e),
        };
        proof {
            use_type_invariant(&*self);
        }
        out
    }

    /// Starts the initialisation of the session.
    pub(crate) fn set_state(
        &mut self,
        id: Option<&str>,
        pos: (u32, u32),
        size: Option<(u32, u32)>,
    ) -> (r: Result<Vec<HostAction>, PanesError>)
        ensures
            planned(
                old(self)@,
                final(self)@,
                r,
                old(self)@.init(crate::host::opt_str(id), pos, size),
            ),
    {
        proof {
            use_type_invariant(&*self);
        }
        if self.pending.is_some() {
            return Err(PanesError::Locked);
        }
        if self.state.is_some() {
            return Err(PanesError::AlreadyInitialized);
        }
        let root_id: Option<String> = match id {
            Some(s) => Some(s.to_owned()),
            None => None,
        };
        let mut actions: Vec<HostAction> = Vec::new();
        actions.push(HostAction::Mount { root_id, stylesheet: crate::style::panes_styles() });
        self.pending = Some(Pending::Init { pos, size });
        proof {
            use_type_invariant(&*self);
        }
        Ok(actions)
    }

    /// Starts the creation of a pane.
    pub(crate) fn new_pane(
        &mut self,
        x: u32,
        y: u32,
        w: u32,
        h: u32,
        html: &str,
        classes: &str,
        css: &str,
        component: Option<JsClassHandle>,
    ) -> (r: Result<Vec<HostAction>, PanesError>)
        ensures
            planned(
                old(self)@,
                final(self)@,
                r,
                old(self)@.begin(
                    old(self)@.state->0.new_pane(x, y, w, h, html@, classes@, css@, component),
                ),
            ),
    {
        let state = match self.take_state() {
            Ok(s) => s,
            Err(e) => {
                return Err(e);
            },
        };
        let r = state.new_pane(x, y, w, h, html, classes, css, component);
        self.put_back(state, r)
    }

    /// Starts the hiding of a pane.
    pub(crate) fn hide_pane(&mut self, p: &DivHandle) -> (r: Result<Vec<HostAction>, PanesError>)
        ensures
            planned(old(self)@, final(self)@, r, old(self)@.begin(old(self)@.state->0.hide_pane(*p))),
    {
        let state = match self.take_state() {
            Ok(s) => s,
            Err(e) => {
                return Err(e);
            },
        };
        let r = state.hide_pane(p);
        self.put_back(state, r)
    }

    /// Starts the showing of a pane.
    pub(crate) fn show_pane(&mut self, p: &DivHandle) -> (r: Result<Vec<HostAction>, PanesError>)
        ensures
            planned(old(self)@, final(self)@, r, old(self)@.begin(old(self)@.state->0.show_pane(*p))),
    {
        let state = match self.take_state() {
            Ok(s) => s,
            Err(e) => {
                return Err(e);
            },
        };
        let r = state.show_pane(p);
        self.put_back(state, r)
    }

    /// Starts the deletion of a pane.
    pub(crate) fn delete_pane(&mut self, p: &DivHandle) -> (r: Result<Vec<HostAction>, PanesError>)
        ensures
            planned(
                old(self)@,
                final(self)@,
                r,
                old(self)@.begin(old(self)@.state->0.delete_pane(*p)),
            ),
    {
        let state = match self.take_state() {
            Ok(s) => s,
            Err(e) => {
                return Err(e);
            },
        };
        let r = state.delete_pane(p);
        self.put_back(state, r)
    }

    /// Moves or resizes a pane.
    pub(crate) fn update_pane(
        &mut self,
        p: &DivHandle,
        x: Option<u32>,
        y: Option<u32>,
        w: Option<u32>,
        h: Option<u32>,
    ) -> (r: Result<Vec<HostAction>, PanesError>)
        ensures
            planned(
                old(self)@,
                final(self)@,
                r,
                old(self)@.begin(old(self)@.state->0.update_pane(*p, x, y, w, h)),
            ),
    {
        let mut state = match self.take_state() {
            Ok(s) => s,
            Err(e) => {
                return Err(e);
            },
        };
        let r = state.update_pane(p, x, y, w, h);
        self.put_back(state, r)
    }

    /// Moves the global origin.
    pub(crate) fn global_reposition(&mut self, x: u32, y: u32) -> (r: Result<Vec<HostAction>, PanesError>)
        ensures
            planned(
                old(self)@,
                final(self)@,
                r,
                old(self)@.begin(old(self)@.state->0.global_reposition(x, y)),
            ),
    {
        let mut state = match self.take_state() {
            Ok(s) => s,
            Err(e) => {
                return Err(e);
            },
        };
        let r = state.global_reposition(x, y);
        self.put_back(state, r)
    }

    /// Resizes the global frame.
    pub(crate) fn global_resize(&mut self, w: u32, h: u32) -> (r: Result<Vec<HostAction>, PanesError>)
        ensures
            planned(
                old(self)@,
                final(self)@,
                r,
                old(self)@.begin(old(self)@.state->0.global_resize(w, h)),
            ),
    {
        let mut state = match self.take_state() {
            Ok(s) => s,
            Err(e) => {
                return Err(e);
            },
        };
        let r = state.global_resize(w, h);
        self.put_back(state, r)
    }

    /// Registers classes and starts the loading of the module that brings
    /// them.
    pub(crate) fn load(&mut self, classes: &[&str], src: &str) -> (r: Result<Vec<HostAction>, PanesError>)
        ensures
            planned(
                old(self)@,
                final(self)@,
                r,
                old(self)@.begin(old(self)@.state->0.load(crate::text::texts(classes@), src@)),
            ),
    {
        let mut state = match self.take_state() {
            Ok(s) => s,
            Err(e) => {
                return Err(e);
            },
        };
        let r = state.load(classes, src);
        self.put_back(state, r)
    }

    /// Starts the loading of a script module.
    pub(crate) fn load_module(&mut self, code: String) -> (r: Result<Vec<HostAction>, PanesError>)
        ensures
            planned(old(self)@, final(self)@, r, old(self)@.load_module(code@)),
    {
        proof {
            use_type_invariant(&*self);
        }
        if self.pending.is_some() {
            return Err(PanesError::Locked);
        }
        let mut actions: Vec<HostAction> = Vec::new();
        actions.push(
            HostAction::InjectModule { code: crate::class::load::counted_module(code) },
        );
        self.pending = Some(Pending::Load { handles: Vec::new() });
        proof {
            use_type_invariant(&*self);
        }
        Ok(actions)
    }

    /// Starts the search for a class by name.
    pub(crate) fn probe(&mut self, name: &str) -> (r: Result<Vec<HostAction>, PanesError>)
        ensures
            planned(old(self)@, final(self)@, r, old(self)@.begin(old(self)@.state->0.probe(name@))),
    {
        let state = match self.take_state() {
            Ok(s) => s,
            Err(e) => {
                return Err(e);
            },
        };
        let r = state.probe(name);
        self.put_back(state, r)
    }

    /// The record of a pane.
    pub fn get(&self, p: &DivHandle) -> (r: Result<Pane, PanesError>)
        ensures
            r == self@.read(self@.state->0.pane(*p)),
            self@.wf(),
    {
        if let Err(e) = self.gate() {
            return Err(e);
        }
        match &self.state {
            Some(state) => match state.nodes.get(p) {
                Ok(pane) => Ok(*pane),
                Err(e) => Err(e),
            },
            None => Err(PanesError::NotInitialized),
        }
    }

    /// Where a pane stands on the host surface.
    pub fn placement(&self, p: &DivHandle) -> (r: Result<AbsoluteRect, PanesError>)
        ensures
            r == self@.read(self@.state->0.placed(*p)),
            self@.wf(),
    {
        if let Err(e) = self.gate() {
            return Err(e);
        }
        match &self.state {
            Some(state) => match state.nodes.get(p) {
                Ok(pane) => Ok(state.transform.absolute(&pane.local)),
                Err(e) => Err(e),
            },
            None => Err(PanesError::NotInitialized),
        }
    }

    /// The display object of a pane.
    pub(crate) fn get_node(&self, p: &DivHandle) -> (r: Result<NodeRef, PanesError>)
        ensures
            r == self@.read(self@.state->0.node(*p)),
    {
        if let Err(e) = self.gate() {
            return Err(e);
        }
        match &self.state {
            Some(state) => state.get_node(p),
            None => Err(PanesError::NotInitialized),
        }
    }

    /// The work that sets a style property of a pane.
    pub(crate) fn set_css(&self, p: &DivHandle, property: &str, value: &str) -> (r: Result<
        HostAction,
        PanesError,
    >)
        ensures
            answered(r, self@.read(self@.state->0.set_css(*p, property@, value@))),
    {
        if let Err(e) = self.gate() {
            return Err(e);
        }
        match &self.state {
            Some(state) => match state.nodes.get(p) {
                Ok(pane) => Ok(pane.set_css(property, value)),
                Err(e) => Err(e),
            },
            None => Err(PanesError::NotInitialized),
        }
    }

    /// The work that adds a class to a pane.
    pub(crate) fn add_class(&self, p: &DivHandle, css_class: &str) -> (r: Result<HostAction, PanesError>)
        ensures
            answered(r, self@.read(self@.state->0.add_class(*p, css_class@))),
    {
        if let Err(e) = self.gate() {
            return Err(e);
        }
        match &self.state {
            Some(state) => match state.nodes.get(p) {
                Ok(pane) => Ok(pane.add_class(css_class)),
                Err(e) => Err(e),
            },
            None => Err(PanesError::NotInitialized),
        }
    }

    /// The work that removes a class from a pane.
    pub(crate) fn remove_class(&self, p: &DivHandle, css_class: &str) -> (r: Result<
        HostAction,
        PanesError,
    >)
        ensures
            answered(r, self@.read(self@.state->0.remove_class(*p, css_class@))),
    {
        if let Err(e) = self.gate() {
            return Err(e);
        }
        match &self.state {
            Some(state) => match state.nodes.get(p) {
                Ok(pane) => Ok(pane.remove_class(css_class)),
                Err(e) => Err(e),
            },
            None => Err(PanesError::NotInitialized),
        }
    }

    /// Takes the host's report on the work of the operation that holds the
    /// guard, does what the operation was waiting to do, and frees the guard.
    ///
    /// `Err` is the report of a host that failed: the error is handed on.
    pub fn finish(&mut self, report: Result<HostReply, PanesError>) -> (r: Result<Reply, PanesError>)
        ensures
            final(self)@ =~= old(self)@.finish(report).0,
            finished(r, old(self)@.finish(report).1),
            old(self)@.wf(),
            final(self)@.wf(),
    {
        proof {
            use_type_invariant(&*self);
            crate::laws::law_finish_keeps_well_formed(self@, report);
        }
        let ghost before = self@;
        let mut pending: Option<Pending> = None;
        core::mem::swap(&mut pending, &mut self.pending);
        assert(self@ =~= before.released());
        let reply = match report {
            Ok(reply) => reply,
            Err(e) => {
                return Err(e);
            },
        };
        let pending = match pending {
            Some(p) => p,
            None => {
                return Ok(Reply::Done);
            },
        };
        match (pending, reply) {
            (Pending::Init { pos, size }, HostReply::Node(root)) => {
                self.state = Some(
                    GlobalState {
                        root,
                        transform: Transform::at(pos),
                        size,
                        nodes: PaneStorage::new(),
                        classes: JsClassStorage::new(),
                    },
                );
                Ok(Reply::Done)
            },
            (Pending::Create { local }, HostReply::Node(node)) => {
                let mut slot: Option<GlobalState> = None;
                core::mem::swap(&mut slot, &mut self.state);
                let mut state = slot.unwrap();
                let r = state.nodes.insert(Pane { node, displayed: true, local });
                self.state = Some(state);
                match r {
                    Ok(handle) => Ok(Reply::Pane(handle)),
                    Err(e) => Err(e),
                }
            },
            (Pending::Hide { handle }, HostReply::Done) => {
                self.set_displayed(&handle, false);
                Ok(Reply::Done)
            },
            (Pending::Show { handle }, HostReply::Done) => {
                self.set_displayed(&handle, true);
                Ok(Reply::Done)
            },
            (Pending::Delete { handle }, HostReply::Done) => {
                let mut slot: Option<GlobalState> = None;
                core::mem::swap(&mut slot, &mut self.state);
                let mut state = slot.unwrap();
                let _ = state.nodes.remove(&handle);
                self.state = Some(state);
                Ok(Reply::Done)
            },
            (Pending::Settle, HostReply::Done) => Ok(Reply::Done),
            (Pending::Load { handles }, HostReply::Done) => {
                let ticket = self.tickets;
                self.tickets = next_ticket(ticket);
                Ok(Reply::Loading(PendingClasses { script: PendingScript { ticket }, handles }))
            },
            (Pending::Probe { name }, HostReply::Exists(known)) => {
                let mut slot: Option<GlobalState> = None;
                core::mem::swap(&mut slot, &mut self.state);
                let mut state = slot.unwrap();
                let class = state.classes.preloaded(name.as_str(), known);
                state.nodes.well_formed();
                self.state = Some(state);
                Ok(Reply::Class(class))
            },
            (Pending::Known { class }, HostReply::Done) => Ok(Reply::Class(Some(class))),
            _ => Err(PanesError::JsCastError),
        }
    }

    /// Records whether a registered pane is attached.
    fn set_displayed(&mut self, p: &DivHandle, displayed: bool)
        requires
            old(self)@.waiting is None,
            old(self)@.state is Some,
            old(self)@.state->0.panes.contains(p.0),
        ensures
            final(self)@ =~= old(self)@.with_state(
                old(self)@.state->0.with_panes(
                    old(self)@.state->0.panes.replaced(
                        p.0,
                        Pane { displayed, ..old(self)@.state->0.panes.pane(p.0) },
                    ),
                ),
            ),
    {
        let mut slot: Option<GlobalState> = None;
        core::mem::swap(&mut slot, &mut self.state);
        let mut state = slot.unwrap();
        match state.nodes.get_mut(p) {
            Ok(pane) => {
                pane.displayed = displayed;
            },
            Err(_) => {},
        }
        state.nodes.well_formed();
        self.state = Some(state);
    }
}

} // verus!
