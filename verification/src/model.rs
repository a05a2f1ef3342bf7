//! The session as a mathematical value: what each operation plans, and what
//! becomes of the session when the host reports.
//!
//! The contracts of the executable operations are stated over these
//! functions, and so are the laws.

use vstd::prelude::*;
use crate::class::load::{spec_class_loading_module, spec_counted_module, spec_next_ticket};
use crate::class::{first_named, JsClassHandle};
use crate::div_handle::DivHandle;
use crate::error::PanesError;
use crate::host::{HostReply, NodeRef, Work};
use crate::storage::{Pane, RegistryModel};
use crate::style::spec_panes_styles;
use crate::transform::{AbsoluteRect, LocalRect, Ratio, Transform};

verus! {

/// An initialised session as a mathematical value.
#[verifier::ext_equal]
pub struct StateModel {
    /// The attachment root on the host surface.
    pub root: NodeRef,
    /// The global origin and zoom.
    pub transform: Transform,
    /// The size of the global frame at which the zoom is one, if one was set.
    pub size: Option<(u32, u32)>,
    /// The registered panes.
    pub panes: RegistryModel,
    /// The names of the registered classes.
    pub classes: Seq<Seq<char>>,
}

/// What the operation that holds the guard is waiting to do once the host
/// has done its part.
#[verifier::ext_equal]
pub enum Waiting {
    /// To initialise the session with this origin and reference size.
    Init { pos: (u32, u32), size: Option<(u32, u32)> },
    /// To register a pane with this rectangle.
    Create { local: LocalRect },
    /// To record that a pane is detached.
    Hide { handle: DivHandle },
    /// To record that a pane is attached.
    Show { handle: DivHandle },
    /// To take a pane out of the registry.
    Delete { handle: DivHandle },
    /// Nothing: the session was updated before the host was asked.
    Settle,
    /// To issue a ticket for a script module, for the classes at these
    /// places of the list of classes.
    Load { handles: Seq<int> },
    /// To register a class of this name if the host knows one.
    Probe { name: Seq<char> },
    /// To hand out the handle of the class at this place of the list of
    /// classes, which was registered already.
    Known { class: int },
}

/// A session as a mathematical value.
#[verifier::ext_equal]
pub struct SessionModel {
    /// The state, once the session is initialised.
    pub state: Option<StateModel>,
    /// What the holder of the guard waits for; `None` while the guard is free.
    pub waiting: Option<Waiting>,
    /// The ticket that the next load gets.
    pub tickets: i32,
}

/// What `Session::finish` hands back, as a mathematical value.
#[verifier::ext_equal]
pub enum Outcome {
    /// The operation is complete and has nothing to hand out.
    Done,
    /// A pane was registered under this handle.
    Pane(DivHandle),
    /// The place, in the list of classes, of the class that was asked for by
    /// name, if there is one.
    Class(Option<int>),
    /// A load was started under this ticket, for the classes at these
    /// places of the list of classes.
    Loading { ticket: i32, handles: Seq<int> },
}

/// What an operation plans: the session afterwards and the work for the
/// host, or the error that keeps it from starting.
pub type Plan = Result<(SessionModel, Seq<Work>), PanesError>;

/// What an operation plans on an initialised session: the state afterwards,
/// what it waits for, and the work for the host; or the error that keeps it
/// from starting.
pub type Step = Result<(StateModel, Waiting, Seq<Work>), PanesError>;

/// The name of an optional class in a list of class names.
pub open spec fn component_name(classes: Seq<Seq<char>>, class: Option<JsClassHandle>) -> Option<
    Seq<char>,
> {
    match class {
        Some(c) => Some(classes[c.index as int]),
        None => None,
    }
}

/// A moved coordinate: `by` further on, where a distance is given.
pub open spec fn shifted(at: u64, by: Option<u32>) -> u64 {
    match by {
        Some(d) => crate::transform::capped_sum(at as int, d as int) as u64,
        None => at,
    }
}

/// A length: the new one, where one is given.
pub open spec fn resized(old: u32, new: Option<u32>) -> u32 {
    match new {
        Some(n) => n,
        None => old,
    }
}

impl StateModel {
    /// The state of a session that was just initialised.
    pub open spec fn initial(root: NodeRef, pos: (u32, u32), size: Option<(u32, u32)>) -> StateModel {
        StateModel {
            root,
            transform: Transform::spec_at(pos),
            size,
            panes: RegistryModel::empty(),
            classes: Seq::empty(),
        }
    }

    /// The work that places the pane under `index`.
    pub open spec fn placing(self, index: usize) -> Work {
        Work::Place {
            node: self.panes.pane(index).node,
            rect: self.transform.place(self.panes.pane(index).local),
        }
    }

    /// The work that places every registered pane, shown or hidden, in the
    /// order of registration.
    pub open spec fn sweep(self) -> Seq<Work> {
        Seq::new(self.panes.indices().len(), |k: int| self.placing(self.panes.indices()[k]))
    }

    /// The plan to create a pane at `(x, y)` from the global origin, of size
    /// `(w, h)`, with the given content, further class names and style
    /// attribute, and with an instance of `component` inside, if one is named.
    ///
    /// The pane's rectangle is recorded with the global origin folded in.
    /// The plan fails with `NotAllocated` where the class is not one of the
    /// session's, and where every index has been issued.
    pub open spec fn new_pane(
        self,
        x: u32,
        y: u32,
        w: u32,
        h: u32,
        html: Seq<char>,
        classes: Seq<char>,
        css: Seq<char>,
        component: Option<JsClassHandle>,
    ) -> Step {
        if component is Some && component->0.index >= self.classes.len() {
            Err(PanesError::NotAllocated)
        } else if !self.panes.has_room() {
            Err(PanesError::NotAllocated)
        } else {
            let local = LocalRect::spec_recorded((self.transform.ox, self.transform.oy), x, y, w, h);
            Ok(
                (
                    self,
                    Waiting::Create { local },
                    seq![
                        Work::CreateNode {
                            class_name: "div-rs"@ + classes,
                            html,
                            style: css,
                            rect: self.transform.place(local),
                            component: component_name(self.classes, component),
                        },
                    ],
                ),
            )
        }
    }

    /// The plan to hide a pane: its display object is detached if it is
    /// attached.
    pub open spec fn hide_pane(self, p: DivHandle) -> Step {
        match self.panes.lookup(p.0) {
            Err(e) => Err(e),
            Ok(pane) => Ok(
                (
                    self,
                    Waiting::Hide { handle: p },
                    if pane.displayed {
                        seq![Work::Detach { node: pane.node }]
                    } else {
                        Seq::empty()
                    },
                ),
            ),
        }
    }

    /// The plan to show a pane: its display object is attached if it is
    /// detached.
    pub open spec fn show_pane(self, p: DivHandle) -> Step {
        match self.panes.lookup(p.0) {
            Err(e) => Err(e),
            Ok(pane) => Ok(
                (
                    self,
                    Waiting::Show { handle: p },
                    if pane.displayed {
                        Seq::empty()
                    } else {
                        seq![Work::Attach { node: pane.node }]
                    },
                ),
            ),
        }
    }

    /// The plan to delete a pane: it is hidden first, then its display object
    /// is given up.
    pub open spec fn delete_pane(self, p: DivHandle) -> Step {
        match self.panes.lookup(p.0) {
            Err(e) => Err(e),
            Ok(pane) => Ok(
                (
                    self,
                    Waiting::Delete { handle: p },
                    if pane.displayed {
                        seq![Work::Detach { node: pane.node }, Work::Release { node: pane.node }]
                    } else {
                        seq![Work::Release { node: pane.node }]
                    },
                ),
            ),
        }
    }

    /// The display object of a pane.
    pub open spec fn node(self, p: DivHandle) -> Result<NodeRef, PanesError> {
        match self.panes.lookup(p.0) {
            Err(e) => Err(e),
            Ok(pane) => Ok(pane.node),
        }
    }

    /// The record of a pane.
    pub open spec fn pane(self, p: DivHandle) -> Result<Pane, PanesError> {
        self.panes.lookup(p.0)
    }

    /// Where a pane stands on the host surface.
    pub open spec fn placed(self, p: DivHandle) -> Result<AbsoluteRect, PanesError> {
        match self.panes.lookup(p.0) {
            Err(e) => Err(e),
            Ok(pane) => Ok(self.transform.place(pane.local)),
        }
    }

    /// The work that sets a style property of a pane.
    pub open spec fn set_css(self, p: DivHandle, property: Seq<char>, value: Seq<char>) -> Result<
        Work,
        PanesError,
    > {
        match self.panes.lookup(p.0) {
            Err(e) => Err(e),
            Ok(pane) => Ok(Work::SetStyleProperty { node: pane.node, name: property, value }),
        }
    }

    /// The work that adds a class to a pane.
    pub open spec fn add_class(self, p: DivHandle, class: Seq<char>) -> Result<Work, PanesError> {
        match self.panes.lookup(p.0) {
            Err(e) => Err(e),
            Ok(pane) => Ok(Work::AddClass { node: pane.node, class }),
        }
    }

    /// The work that removes a class from a pane.
    pub open spec fn remove_class(self, p: DivHandle, class: Seq<char>) -> Result<Work, PanesError> {
        match self.panes.lookup(p.0) {
            Err(e) => Err(e),
            Ok(pane) => Ok(Work::RemoveClass { node: pane.node, class }),
        }
    }

    /// The rectangle of a pane after an update: moved by `x` and `y` and
    /// given the size `w` and `h`, each where it is given.
    pub open spec fn updated(
        local: LocalRect,
        x: Option<u32>,
        y: Option<u32>,
        w: Option<u32>,
        h: Option<u32>,
    ) -> LocalRect {
        LocalRect {
            x: shifted(local.x, x),
            y: shifted(local.y, y),
            w: resized(local.w, w),
            h: resized(local.h, h),
        }
    }

    /// The plan to move or resize a pane: the new rectangle is recorded at
    /// once, and the pane is placed anew.
    pub open spec fn update_pane(
        self,
        p: DivHandle,
        x: Option<u32>,
        y: Option<u32>,
        w: Option<u32>,
        h: Option<u32>,
    ) -> Step {
        match self.panes.lookup(p.0) {
            Err(e) => Err(e),
            Ok(pane) => {
                let local = StateModel::updated(pane.local, x, y, w, h);
                Ok(
                    (
                        self.with_panes(self.panes.replaced(p.0, Pane { local, ..pane })),
                        Waiting::Settle,
                        seq![Work::Place { node: pane.node, rect: self.transform.place(local) }],
                    ),
                )
            },
        }
    }

    /// The plan to move the global origin: the origin is recorded at once,
    /// and every pane is placed anew.
    pub open spec fn global_reposition(self, x: u32, y: u32) -> Step {
        let next = self.with_transform(Transform { ox: x, oy: y, ..self.transform });
        Ok((next, Waiting::Settle, next.sweep()))
    }

    /// The plan to resize the global frame to `(w, h)`: the zoom becomes the
    /// quotient of the new size and the reference size, and every pane is
    /// placed anew. Without a reference size there is no zoom to compute.
    pub open spec fn global_resize(self, w: u32, h: u32) -> Step {
        match self.size {
            None => Err(PanesError::UndefinedSize),
            Some((width, height)) => {
                let next = self.with_transform(
                    Transform {
                        zx: Ratio { num: w, den: width },
                        zy: Ratio { num: h, den: height },
                        ..self.transform
                    },
                );
                Ok((next, Waiting::Settle, next.sweep()))
            },
        }
    }

    /// The places of `n` classes registered one after the other, the first
    /// of them at place `from`.
    pub open spec fn issued(from: int, n: int) -> Seq<int> {
        Seq::new(n as nat, |i: int| from + i)
    }

    /// The plan to load `classes` from the script at `src`: the classes are
    /// registered at once, and the host is handed the module that loads them.
    pub open spec fn load(self, classes: Seq<Seq<char>>, src: Seq<char>) -> Step {
        Ok(
            (
                self.with_classes(self.classes + classes),
                Waiting::Load {
                    handles: StateModel::issued(self.classes.len() as int, classes.len() as int),
                },
                seq![
                    Work::InjectModule {
                        code: spec_counted_module(spec_class_loading_module(classes, src)),
                    },
                ],
            ),
        )
    }

    /// The plan to find a class by name: the host is asked only if no class
    /// of that name is registered.
    pub open spec fn probe(self, name: Seq<char>) -> Step {
        match first_named(self.classes, name) {
            Some(i) => Ok((self, Waiting::Known { class: i }, Seq::empty())),
            None => Ok((self, Waiting::Probe { name }, seq![Work::ProbeComponent { name }])),
        }
    }

    /// The place of the class that is handed out for a name once the host
    /// has said whether it knows a component of that name, and the state
    /// afterwards: a class that the host knows and the session does not is
    /// put at the end of the list.
    pub open spec fn probed(self, name: Seq<char>, exists_on_host: bool) -> (
        StateModel,
        Option<int>,
    ) {
        match first_named(self.classes, name) {
            Some(i) => (self, Some(i)),
            None => if exists_on_host {
                (self.with_classes(self.classes.push(name)), Some(self.classes.len() as int))
            } else {
                (self, None)
            },
        }
    }

    /// The state with another registry.
    pub open spec fn with_panes(self, panes: RegistryModel) -> StateModel {
        StateModel { panes, ..self }
    }

    /// The state with another transform.
    pub open spec fn with_transform(self, transform: Transform) -> StateModel {
        StateModel { transform, ..self }
    }

    /// The state with another list of classes.
    pub open spec fn with_classes(self, classes: Seq<Seq<char>>) -> StateModel {
        StateModel { classes, ..self }
    }
}

impl SessionModel {
    /// A session that was never initialised and whose guard is free.
    pub open spec fn fresh() -> SessionModel {
        SessionModel { state: None, waiting: None, tickets: 0 }
    }

    /// Whether an operation holds the guard.
    pub open spec fn locked(self) -> bool {
        self.waiting is Some
    }

    /// Whether the session is initialised.
    pub open spec fn initialized(self) -> bool {
        self.state is Some
    }

    /// The error that keeps an operation on the state from starting: the
    /// guard is taken, or else the session is not initialised.
    pub open spec fn refusal(self) -> Option<PanesError> {
        if self.locked() {
            Some(PanesError::Locked)
        } else if !self.initialized() {
            Some(PanesError::NotInitialized)
        } else {
            None
        }
    }

    /// The session with the guard taken by an operation that waits for `w`.
    pub open spec fn holding(self, w: Waiting) -> SessionModel {
        SessionModel { waiting: Some(w), ..self }
    }

    /// The session with the guard free.
    pub open spec fn released(self) -> SessionModel {
        SessionModel { waiting: None, ..self }
    }

    /// The session with its parts spelled out.
    pub open spec fn of(state: Option<StateModel>, waiting: Option<Waiting>, tickets: i32) -> SessionModel {
        SessionModel { state, waiting, tickets }
    }

    /// The session with another state.
    pub open spec fn with_state(self, state: StateModel) -> SessionModel {
        SessionModel { state: Some(state), ..self }
    }

    /// The plan of an operation that needs the guard and an initialised
    /// session, and that plans `step` on the state.
    pub open spec fn begin(self, step: Step) -> Plan {
        match self.refusal() {
            Some(e) => Err(e),
            None => match step {
                Err(e) => Err(e),
                Ok((state, w, work)) => Ok(
                    (SessionModel { state: Some(state), waiting: Some(w), tickets: self.tickets }, work),
                ),
            },
        }
    }

    /// The answer of an operation that only reads an initialised session
    /// while the guard is free.
    pub open spec fn read<T>(self, answer: Result<T, PanesError>) -> Result<T, PanesError> {
        match self.refusal() {
            Some(e) => Err(e),
            None => answer,
        }
    }

    /// The plan to initialise the session, mounted to the element with the
    /// given id or else to the document body.
    pub open spec fn init(self, id: Option<Seq<char>>, pos: (u32, u32), size: Option<(u32, u32)>) -> Plan {
        if self.locked() {
            Err(PanesError::Locked)
        } else if self.initialized() {
            Err(PanesError::AlreadyInitialized)
        } else {
            Ok(
                (
                    self.holding(Waiting::Init { pos, size }),
                    seq![Work::Mount { root_id: id, stylesheet: spec_panes_styles() }],
                ),
            )
        }
    }

    /// The plan to run a script module and count it as loaded. This needs
    /// the guard, but no initialised session.
    pub open spec fn load_module(self, code: Seq<char>) -> Plan {
        if self.locked() {
            Err(PanesError::Locked)
        } else {
            Ok(
                (
                    self.holding(Waiting::Load { handles: Seq::empty() }),
                    seq![Work::InjectModule { code: spec_counted_module(code) }],
                ),
            )
        }
    }

    /// What becomes of the session, and what is handed back, when the host
    /// reports on the work of the operation that holds the guard.
    ///
    /// The guard is free afterwards in every case. Where the host failed, its
    /// error is handed on and nothing that was waiting is done. Where the
    /// host answers with something that the operation cannot use, the
    /// operation fails with `JsCastError`, and again nothing is done.
    pub open spec fn finish(self, report: Result<HostReply, PanesError>) -> (
        SessionModel,
        Result<Outcome, PanesError>,
    ) {
        let free = self.released();
        match report {
            Err(e) => (free, Err(e)),
            Ok(reply) => match (self.waiting, reply) {
                (None, _) => (free, Ok(Outcome::Done)),
                (Some(Waiting::Init { pos, size }), HostReply::Node(root)) => (
                    free.with_state(StateModel::initial(root, pos, size)),
                    Ok(Outcome::Done),
                ),
                (Some(Waiting::Create { local }), HostReply::Node(node)) => {
                    let s = self.state->0;
                    (
                        free.with_state(
                            s.with_panes(s.panes.inserted(Pane { node, displayed: true, local })),
                        ),
                        Ok(Outcome::Pane(DivHandle(s.panes.next))),
                    )
                },
                (Some(Waiting::Hide { handle }), HostReply::Done) => {
                    let s = self.state->0;
                    let pane = s.panes.pane(handle.0);
                    (
                        free.with_state(
                            s.with_panes(
                                s.panes.replaced(handle.0, Pane { displayed: false, ..pane }),
                            ),
                        ),
                        Ok(Outcome::Done),
                    )
                },
                (Some(Waiting::Show { handle }), HostReply::Done) => {
                    let s = self.state->0;
                    let pane = s.panes.pane(handle.0);
                    (
                        free.with_state(
                            s.with_panes(s.panes.replaced(handle.0, Pane { displayed: true, ..pane })),
                        ),
                        Ok(Outcome::Done),
                    )
                },
                (Some(Waiting::Delete { handle }), HostReply::Done) => {
                    let s = self.state->0;
                    (free.with_state(s.with_panes(s.panes.removed(handle.0))), Ok(Outcome::Done))
                },
                (Some(Waiting::Settle), HostReply::Done) => (free, Ok(Outcome::Done)),
                (Some(Waiting::Load { handles }), HostReply::Done) => (
                    SessionModel { tickets: spec_next_ticket(self.tickets), ..free },
                    Ok(Outcome::Loading { ticket: self.tickets, handles }),
                ),
                (Some(Waiting::Probe { name }), HostReply::Exists(known)) => {
                    let (s, class) = self.state->0.probed(name, known);
                    (free.with_state(s), Ok(Outcome::Class(class)))
                },
                (Some(Waiting::Known { class }), HostReply::Done) => (
                    free,
                    Ok(Outcome::Class(Some(class))),
                ),
                _ => (free, Err(PanesError::JsCastError)),
            },
        }
    }

    /// What holds of every session: the registry is well-formed, and the
    /// holder of the guard waits for something that can be done.
    pub open spec fn wf(self) -> bool {
        &&& self.state matches Some(s) ==> s.panes.wf()
        &&& match self.waiting {
            None => true,
            Some(Waiting::Init { .. }) => self.state is None,
            Some(Waiting::Create { .. }) => self.state is Some && self.state->0.panes.has_room(),
            Some(Waiting::Hide { handle }) => self.state is Some && self.state->0.panes.contains(
                handle.0,
            ),
            Some(Waiting::Show { handle }) => self.state is Some && self.state->0.panes.contains(
                handle.0,
            ),
            Some(Waiting::Delete { handle }) => self.state is Some && self.state->0.panes.contains(
                handle.0,
            ),
            Some(Waiting::Settle) => true,
            Some(Waiting::Load { .. }) => true,
            Some(Waiting::Probe { .. }) => self.state is Some,
            Some(Waiting::Known { .. }) => true,
        }
    }
}

} // verus!
