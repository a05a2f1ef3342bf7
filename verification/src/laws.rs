//! What holds of the library whatever the calls.

use vstd::prelude::*;
use crate::class::{first_named, JsClassHandle};
use crate::class::load::PendingScript;
use crate::div_handle::DivHandle;
use crate::error::PanesError;
use crate::host::{HostReply, NodeRef, Work};
use crate::model::{Outcome, Plan, SessionModel, StateModel, Step, Waiting};
use crate::storage::{Pane, RegistryModel};
use crate::transform::{scaled, AbsoluteRect, LocalRect, Ratio, Transform, PIXEL_MAX};

verus! {

/// One call on a registry: to register a pane, or to take out the pane under
/// a handle.
pub enum RegistryOp {
    Insert(Pane),
    Remove(DivHandle),
}

impl RegistryModel {
    /// The registry after one call. A call that fails changes nothing.
    pub open spec fn after(self, op: RegistryOp) -> RegistryModel {
        match op {
            RegistryOp::Insert(pane) => if self.has_room() {
                self.inserted(pane)
            } else {
                self
            },
            RegistryOp::Remove(p) => if self.contains(p.0) {
                self.removed(p.0)
            } else {
                self
            },
        }
    }

    /// The index that one call issues, if it issues one.
    pub open spec fn issues(self, op: RegistryOp) -> Option<usize> {
        match op {
            RegistryOp::Insert(_) => if self.has_room() {
                Some(self.next)
            } else {
                None
            },
            RegistryOp::Remove(_) => None,
        }
    }

    /// The registry after a sequence of calls.
    pub open spec fn after_all(self, ops: Seq<RegistryOp>) -> RegistryModel
        decreases ops.len(),
    {
        if ops.len() == 0 {
            self
        } else {
            self.after_all(ops.drop_last()).after(ops.last())
        }
    }
}

/// Registering a pane keeps the registry well-formed, leaves every other
/// pane as it was, and puts the new pane under the index that was the next
/// to issue, where no pane was before.
pub proof fn law_inserted(m: RegistryModel, pane: Pane, other: usize)
    requires
        m.wf(),
        m.has_room(),
    ensures
        m.inserted(pane).wf(),
        m.inserted(pane).lookup(m.next) == Ok::<Pane, PanesError>(pane),
        other != m.next ==> m.inserted(pane).lookup(other) == m.lookup(other),
        !m.contains(m.next),
{
}

/// Taking a pane out keeps the registry well-formed and leaves every other
/// pane as it was. The index that was taken out reads as used after
/// deletion from then on.
pub proof fn law_removed(m: RegistryModel, index: usize, other: usize)
    requires
        m.wf(),
        m.contains(index),
    ensures
        m.removed(index).wf(),
        m.removed(index).lookup(index) == Err::<Pane, PanesError>(PanesError::UseAfterDelete),
        other != index ==> m.removed(index).lookup(other) == m.lookup(other),
{
}

/// Replacing the record of a pane keeps the registry well-formed, keeps the
/// indices, and leaves every other pane as it was.
pub proof fn law_replaced(m: RegistryModel, index: usize, pane: Pane, other: usize)
    requires
        m.wf(),
        m.contains(index),
    ensures
        m.replaced(index, pane).wf(),
        m.replaced(index, pane).lookup(index) == Ok::<Pane, PanesError>(pane),
        other != index ==> m.replaced(index, pane).lookup(other) == m.lookup(other),
        m.replaced(index, pane).indices() == m.indices(),
{
    lemma_same_indices(m, m.replaced(index, pane), m.next as nat);
}

/// Two registries that hold panes under the same indices below `n` list the
/// same indices below `n`.
pub proof fn lemma_same_indices(a: RegistryModel, b: RegistryModel, n: nat)
    requires
        forall|i: usize| i < n ==> (a.contains(i) <==> b.contains(i)),
    ensures
        a.indices_below(n) == b.indices_below(n),
    decreases n,
{
    if n > 0 {
        lemma_same_indices(a, b, (n - 1) as nat);
    }
}

/// The list of the indices below `n` holds just the indices below `n`
/// under which a pane is registered, in rising order.
pub proof fn lemma_indices_below(m: RegistryModel, n: nat)
    requires
        n <= usize::MAX + 1,
    ensures
        forall|k: int|
            0 <= k < m.indices_below(n).len() ==> m.contains(#[trigger] m.indices_below(n)[k])
                && m.indices_below(n)[k] < n,
        forall|j: int, k: int|
            0 <= j < k < m.indices_below(n).len() ==> m.indices_below(n)[j] < m.indices_below(n)[k],
        forall|i: usize| i < n && m.contains(i) ==> m.indices_below(n).contains(i),
    decreases n,
{
    if n > 0 {
        lemma_indices_below(m, (n - 1) as nat);
        let rest = m.indices_below((n - 1) as nat);
        let top = (n - 1) as usize;
        if m.contains(top) {
            let all = rest.push(top);
            assert(all[rest.len() as int] == top);
            assert forall|i: usize| i < n && m.contains(i) implies all.contains(i) by {
                if i < top {
                    let k = choose|k: int| 0 <= k < rest.len() && rest[k] == i;
                    assert(all[k] == i);
                }
            }
        }
    }
}

/// The list of the indices of a well-formed registry holds just the indices
/// under which a pane is registered, each once, in rising order.
pub proof fn law_indices_list_the_panes(m: RegistryModel)
    requires
        m.wf(),
    ensures
        forall|k: int| 0 <= k < m.indices().len() ==> m.contains(#[trigger] m.indices()[k]),
        forall|j: int, k: int| 0 <= j < k < m.indices().len() ==> m.indices()[j] < m.indices()[k],
        forall|i: usize| m.contains(i) ==> m.indices().contains(i),
{
    lemma_indices_below(m, m.next as nat);
}

/// A pane that is registered comes last in the order of the registry.
pub proof fn law_inserted_comes_last(m: RegistryModel, pane: Pane)
    requires
        m.wf(),
        m.has_room(),
    ensures
        m.inserted(pane).indices() == m.indices().push(m.next),
{
    lemma_same_indices(m, m.inserted(pane), m.next as nat);
}

/// A lookup tells the two kinds of invalid handle apart: an index at or
/// above the next index to issue was never allocated, and an index below it
/// under which no pane is registered was used and deleted.
pub proof fn law_lookup_classifies(m: RegistryModel, index: usize)
    requires
        m.wf(),
    ensures
        index >= m.next ==> m.lookup(index) == Err::<Pane, PanesError>(PanesError::NotAllocated),
        index < m.next && !m.contains(index) ==> m.lookup(index) == Err::<Pane, PanesError>(
            PanesError::UseAfterDelete,
        ),
        m.contains(index) ==> m.lookup(index) is Ok && index < m.next,
{
}

/// Calls keep a registry well-formed, and the next index to issue never
/// falls.
pub proof fn law_calls_keep_order(m: RegistryModel, ops: Seq<RegistryOp>)
    requires
        m.wf(),
    ensures
        m.after_all(ops).wf(),
        m.after_all(ops).next >= m.next,
    decreases ops.len(),
{
    if ops.len() > 0 {
        law_calls_keep_order(m, ops.drop_last());
    }
}

/// No index is issued twice: in any sequence of calls on a registry, an
/// index that is issued is greater than every index that was issued before
/// it, and greater than the index of every pane that was registered at the
/// start.
pub proof fn law_indices_rise(m: RegistryModel, ops: Seq<RegistryOp>, i: int, j: int)
    requires
        m.wf(),
        0 <= i < j < ops.len(),
        m.after_all(ops.take(i)).issues(ops[i]) is Some,
        m.after_all(ops.take(j)).issues(ops[j]) is Some,
    ensures
        m.after_all(ops.take(i)).issues(ops[i])->0 < m.after_all(ops.take(j)).issues(ops[j])->0,
        m.next <= m.after_all(ops.take(i)).issues(ops[i])->0,
        forall|k: usize| #[trigger] m.contains(k) ==> k < m.after_all(ops.take(i)).issues(ops[i])->0,
{
    let past_i = m.after_all(ops.take(i + 1));
    let rest = ops.subrange(i + 1, j);
    law_calls_keep_order(m, ops.take(i));
    assert(ops.take(i + 1).drop_last() == ops.take(i));
    assert(ops.take(i + 1) + rest == ops.take(j));
    lemma_after_all_splits(m, ops.take(i + 1), rest);
    law_calls_keep_order(past_i, rest);
}

/// Making two sequences of calls one after the other is making the one
/// sequence that they form together.
pub proof fn lemma_after_all_splits(m: RegistryModel, first: Seq<RegistryOp>, then: Seq<RegistryOp>)
    ensures
        m.after_all(first + then) == m.after_all(first).after_all(then),
    decreases then.len(),
{
    if then.len() == 0 {
    } else {
        lemma_after_all_splits(m, first, then.drop_last());
        assert((first + then).drop_last() == first + then.drop_last());
    }
}

/// A pane that was taken out is never found again: after any further calls
/// its index still reads as used after deletion.
pub proof fn law_deleted_stays_deleted(m: RegistryModel, index: usize, ops: Seq<RegistryOp>)
    requires
        m.wf(),
        m.contains(index),
    ensures
        m.removed(index).after_all(ops).lookup(index) == Err::<Pane, PanesError>(
            PanesError::UseAfterDelete,
        ),
    decreases ops.len(),
{
    if ops.len() > 0 {
        law_deleted_stays_deleted(m, index, ops.drop_last());
        law_calls_keep_order(m.removed(index), ops.drop_last());
    }
}

/// An operation on the state of a session that is not initialised fails with
/// `NotInitialized`, whatever it would plan; and while the guard is taken it
/// fails with `Locked`.
pub proof fn law_needs_initialized_session(s: SessionModel, step: Step)
    ensures
        s.locked() ==> s.begin(step) == Err::<(SessionModel, Seq<Work>), PanesError>(
            PanesError::Locked,
        ),
        !s.locked() && !s.initialized() ==> s.begin(step) == Err::<
            (SessionModel, Seq<Work>),
            PanesError,
        >(PanesError::NotInitialized),
{
}

/// A session is initialised once: when the host has answered the first
/// initialisation with the root, the session is initialised with the origin
/// and reference size that were asked for, and every further initialisation
/// fails with `AlreadyInitialized`.
pub proof fn law_initialized_once(
    s: SessionModel,
    id: Option<Seq<char>>,
    pos: (u32, u32),
    size: Option<(u32, u32)>,
    root: NodeRef,
    id2: Option<Seq<char>>,
    pos2: (u32, u32),
    size2: Option<(u32, u32)>,
)
    requires
        !s.locked(),
        !s.initialized(),
    ensures
        s.init(id, pos, size) is Ok,
        ({
            let (started, _) = s.init(id, pos, size)->Ok_0;
            let done = started.finish(Ok(HostReply::Node(root)));
            &&& done.1 == Ok::<Outcome, PanesError>(Outcome::Done)
            &&& done.0.state == Some(StateModel::initial(root, pos, size))
            &&& !done.0.locked()
            &&& done.0.init(id2, pos2, size2) == Err::<(SessionModel, Seq<Work>), PanesError>(
                PanesError::AlreadyInitialized,
            )
        }),
{
}

/// Without a reference size the global frame cannot be resized: the
/// operation fails with `UndefinedSize`.
pub proof fn law_resize_needs_reference_size(s: SessionModel, w: u32, h: u32)
    requires
        s.refusal() is None,
        s.state->0.size is None,
    ensures
        s.begin(s.state->0.global_resize(w, h)) == Err::<(SessionModel, Seq<Work>), PanesError>(
            PanesError::UndefinedSize,
        ),
{
}

/// The zoom after a resize of the global frame is the quotient of the new
/// size and the reference size, along each axis.
pub proof fn law_resize_sets_zoom(s: StateModel, w: u32, h: u32)
    requires
        s.size is Some,
    ensures
        s.global_resize(w, h) is Ok,
        ({
            let (next, _, _) = s.global_resize(w, h)->Ok_0;
            let (width, height) = s.size->Some_0;
            &&& next.transform.zx == (Ratio { num: w, den: width })
            &&& next.transform.zy == (Ratio { num: h, den: height })
            &&& next.transform.ox == s.transform.ox
            &&& next.transform.oy == s.transform.oy
            &&& next.panes == s.panes
            &&& next.size == s.size
        }),
{
}

/// A move of the global origin places every registered pane anew, shown or
/// hidden: the work for the host holds, for each pane and in the order of
/// registration, its placement under the new origin, and nothing else.
pub proof fn law_reposition_places_every_pane(s: StateModel, x: u32, y: u32, index: usize)
    requires
        s.panes.wf(),
        s.panes.contains(index),
    ensures
        s.global_reposition(x, y) is Ok,
        ({
            let (next, w, work) = s.global_reposition(x, y)->Ok_0;
            &&& next.panes == s.panes
            &&& next.transform == (Transform { ox: x, oy: y, ..s.transform })
            &&& work.len() == s.panes.indices().len()
            &&& work.contains(
                Work::Place {
                    node: s.panes.pane(index).node,
                    rect: next.transform.place(s.panes.pane(index).local),
                },
            )
            &&& next.placed(DivHandle(index)) == Ok::<AbsoluteRect, PanesError>(
                next.transform.place(s.panes.pane(index).local),
            )
        }),
{
    law_indices_list_the_panes(s.panes);
    let (next, w, work) = s.global_reposition(x, y)->Ok_0;
    let k = choose|k: int| 0 <= k < s.panes.indices().len() && s.panes.indices()[k] == index;
    assert(work[k] == next.placing(index));
}

/// A resize of the global frame places every registered pane anew, shown or
/// hidden: the work for the host holds, for each pane and in the order of
/// registration, its placement under the new zoom, and nothing else.
pub proof fn law_resize_places_every_pane(s: StateModel, w: u32, h: u32, index: usize)
    requires
        s.panes.wf(),
        s.panes.contains(index),
        s.size is Some,
    ensures
        s.global_resize(w, h) is Ok,
        ({
            let (next, _, work) = s.global_resize(w, h)->Ok_0;
            &&& next.panes == s.panes
            &&& work.len() == s.panes.indices().len()
            &&& work.contains(
                Work::Place {
                    node: s.panes.pane(index).node,
                    rect: next.transform.place(s.panes.pane(index).local),
                },
            )
            &&& next.placed(DivHandle(index)) == Ok::<AbsoluteRect, PanesError>(
                next.transform.place(s.panes.pane(index).local),
            )
        }),
{
    law_indices_list_the_panes(s.panes);
    let (next, _, work) = s.global_resize(w, h)->Ok_0;
    let k = choose|k: int| 0 <= k < s.panes.indices().len() && s.panes.indices()[k] == index;
    assert(work[k] == next.placing(index));
}

/// A pane that is shown after a global change stands where the change put
/// it: showing asks the host only to attach the display object, and the
/// placement that the session gives for the pane is the one under the
/// transform of that moment.
pub proof fn law_hidden_pane_follows(s: StateModel, p: DivHandle)
    requires
        s.panes.wf(),
        s.panes.contains(p.0),
        !s.panes.pane(p.0).displayed,
    ensures
        s.show_pane(p) == Ok::<(StateModel, Waiting, Seq<Work>), PanesError>(
            (s, Waiting::Show { handle: p }, seq![Work::Attach { node: s.panes.pane(p.0).node }]),
        ),
        s.placed(p) == Ok::<AbsoluteRect, PanesError>(
            s.transform.place(s.panes.pane(p.0).local),
        ),
{
}

/// Two loads that are started one after the other get rising tickets, as
/// long as the count of loads has not reached the largest ticket.
pub proof fn law_tickets_rise(s: SessionModel, first: Seq<char>, second: Seq<char>)
    requires
        !s.locked(),
        s.tickets < i32::MAX,
    ensures
        s.load_module(first) is Ok,
        ({
            let (loading, _) = s.load_module(first)->Ok_0;
            let one = loading.finish(Ok(HostReply::Done));
            let (again, _) = one.0.load_module(second)->Ok_0;
            let two = again.finish(Ok(HostReply::Done));
            &&& one.1 matches Ok(Outcome::Loading { ticket: t1, .. })
            &&& one.0.load_module(second) is Ok
            &&& two.1 matches Ok(Outcome::Loading { ticket: t2, .. })
            &&& t1 == s.tickets
            &&& t1 < t2
        }),
{
}

/// Whatever the host reports, the guard is free afterwards.
pub proof fn law_finish_frees_the_guard(s: SessionModel, report: Result<HostReply, PanesError>)
    ensures
        !s.finish(report).0.locked(),
        report is Err ==> s.finish(report).1 == Err::<Outcome, PanesError>(report->Err_0)
            && s.finish(report).0 == s.released(),
{
}

/// Whatever the host reports, a well-formed session is well-formed
/// afterwards.
pub proof fn law_finish_keeps_well_formed(s: SessionModel, report: Result<HostReply, PanesError>)
    requires
        s.wf(),
    ensures
        s.finish(report).0.wf(),
{
}

/// Whatever an operation on panes plans on a well-formed session, the
/// session that it plans is well-formed.
pub proof fn law_plans_keep_well_formed(
    s: SessionModel,
    p: DivHandle,
    x: Option<u32>,
    y: Option<u32>,
    w: Option<u32>,
    h: Option<u32>,
    gx: u32,
    gy: u32,
)
    requires
        s.wf(),
    ensures
        s.begin(s.state->0.hide_pane(p)) matches Ok(plan) ==> plan.0.wf(),
        s.begin(s.state->0.show_pane(p)) matches Ok(plan) ==> plan.0.wf(),
        s.begin(s.state->0.delete_pane(p)) matches Ok(plan) ==> plan.0.wf(),
        s.begin(s.state->0.update_pane(p, x, y, w, h)) matches Ok(plan) ==> plan.0.wf(),
        s.begin(s.state->0.global_reposition(gx, gy)) matches Ok(plan) ==> plan.0.wf(),
        s.begin(s.state->0.global_resize(gx, gy)) matches Ok(plan) ==> plan.0.wf(),
{
}

/// A load that counts as finished keeps counting as finished while the
/// number of finished loads does not fall; and it counts as finished from
/// the first number that exceeds its ticket.
pub proof fn law_ready_stays_ready(script: PendingScript, loaded: i32, later: i32)
    requires
        loaded <= later,
    ensures
        script.ready_at(loaded) ==> script.ready_at(later),
        !script.ready_at(script.ticket),
        script.ticket < i32::MAX ==> script.ready_at((script.ticket + 1) as i32),
{
}

/// A zoom by a whole factor multiplies: with the global frame at `k` times
/// its reference size, a length `v` becomes `k * v`, as long as that is a
/// length that scaling hands out.
pub proof fn law_whole_zoom(base: u32, k: u32, v: u64)
    requires
        base > 0,
        base * k <= u32::MAX,
        k * v <= PIXEL_MAX,
    ensures
        (Ratio { num: (base * k) as u32, den: base }).scale(v as int) == k * v,
{
    let n = base as int;
    let f = k as int;
    let len = v as int;
    assert(((n * f) * len) / n == f * len) by (nonlinear_arith)
        requires
            n > 0,
    ;
}

/// A fresh session places a pane where it was asked for: under zoom one the
/// placement is the recorded rectangle moved by the global origin.
pub proof fn law_zoom_one_keeps_lengths(pos: (u32, u32), local: LocalRect)
    requires
        local.x <= PIXEL_MAX,
        local.y <= PIXEL_MAX,
    ensures
        Transform::spec_at(pos).place(local).x == pos.0 + local.x,
        Transform::spec_at(pos).place(local).y == pos.1 + local.y,
        Transform::spec_at(pos).place(local).w == local.w,
        Transform::spec_at(pos).place(local).h == local.h,
{
}

/// Where a class of a name stands in a list of names, one stands first.
proof fn lemma_first_exists(names: Seq<Seq<char>>, name: Seq<char>, j: int)
    requires
        0 <= j < names.len(),
        names[j] == name,
    ensures
        exists|i: int|
            0 <= i <= j && names[i] == name && forall|k: int| 0 <= k < i ==> names[k] != name,
    decreases j,
{
    if exists|k: int| 0 <= k < j && names[k] == name {
        let k = choose|k: int| 0 <= k < j && names[k] == name;
        lemma_first_exists(names, name, k);
    }
}

/// The place that a search by name gives is the first place in the list
/// that holds the name; the search gives none only where no place holds it.
pub proof fn law_first_named(names: Seq<Seq<char>>, name: Seq<char>)
    ensures
        match first_named(names, name) {
            Some(i) => 0 <= i < names.len() && names[i] == name && forall|k: int|
                0 <= k < i ==> names[k] != name,
            None => forall|k: int| 0 <= k < names.len() ==> names[k] != name,
        },
{
    if exists|j: int| 0 <= j < names.len() && names[j] == name {
        let j = choose|j: int| 0 <= j < names.len() && names[j] == name;
        lemma_first_exists(names, name, j);
    }
}

/// The class that is handed out for a name stands in the list of classes
/// under that name. A class that is newly registered gets the number of
/// classes before it as its place, and every class keeps its place.
pub proof fn law_probed_class_is_registered(s: StateModel, name: Seq<char>, known: bool)
    ensures
        ({
            let (next, class) = s.probed(name, known);
            &&& class matches Some(i) ==> 0 <= i < next.classes.len() && next.classes[i] == name
            &&& first_named(s.classes, name) is None && known ==> class == Some(
                s.classes.len() as int,
            )
            &&& first_named(s.classes, name) is None && !known ==> class is None
            &&& s.classes.len() <= next.classes.len()
            &&& forall|k: int| 0 <= k < s.classes.len() ==> next.classes[k] == s.classes[k]
            &&& next.panes == s.panes
            &&& next.transform == s.transform
        }),
{
    law_first_named(s.classes, name);
}

/// The classes of a load are registered at once, one after the other at the
/// end of the list of classes, and every class keeps its place: the place
/// that is handed out for the `i`-th of them holds its name.
pub proof fn law_loaded_classes_are_registered(
    s: StateModel,
    classes: Seq<Seq<char>>,
    src: Seq<char>,
    i: int,
)
    requires
        0 <= i < classes.len(),
    ensures
        s.load(classes, src) is Ok,
        ({
            let (next, waiting, _) = s.load(classes, src)->Ok_0;
            &&& waiting matches Waiting::Load { handles }
            &&& handles.len() == classes.len()
            &&& handles[i] == s.classes.len() + i
            &&& next.classes.len() == s.classes.len() + classes.len()
            &&& next.classes[handles[i]] == classes[i]
            &&& forall|k: int| 0 <= k < s.classes.len() ==> next.classes[k] == s.classes[k]
        }),
{
}

/// One thing that happens to a session: an operation is started, or the
/// host reports on the work of the operation that holds the guard.
pub enum SessionEvent {
    Init { id: Option<Seq<char>>, pos: (u32, u32), size: Option<(u32, u32)> },
    NewPane {
        x: u32,
        y: u32,
        w: u32,
        h: u32,
        html: Seq<char>,
        classes: Seq<char>,
        css: Seq<char>,
        component: Option<JsClassHandle>,
    },
    Hide { p: DivHandle },
    Show { p: DivHandle },
    Delete { p: DivHandle },
    Update { p: DivHandle, x: Option<u32>, y: Option<u32>, w: Option<u32>, h: Option<u32> },
    GlobalReposition { x: u32, y: u32 },
    GlobalResize { w: u32, h: u32 },
    Load { classes: Seq<Seq<char>>, src: Seq<char> },
    LoadModule { code: Seq<char> },
    Probe { name: Seq<char> },
    Report { report: Result<HostReply, PanesError> },
}

impl SessionModel {
    /// What the operation of an event plans. A report plans nothing.
    pub open spec fn plan_of(self, event: SessionEvent) -> Plan {
        let s = self.state->0;
        match event {
            SessionEvent::Init { id, pos, size } => self.init(id, pos, size),
            SessionEvent::NewPane { x, y, w, h, html, classes, css, component } => self.begin(
                s.new_pane(x, y, w, h, html, classes, css, component),
            ),
            SessionEvent::Hide { p } => self.begin(s.hide_pane(p)),
            SessionEvent::Show { p } => self.begin(s.show_pane(p)),
            SessionEvent::Delete { p } => self.begin(s.delete_pane(p)),
            SessionEvent::Update { p, x, y, w, h } => self.begin(s.update_pane(p, x, y, w, h)),
            SessionEvent::GlobalReposition { x, y } => self.begin(s.global_reposition(x, y)),
            SessionEvent::GlobalResize { w, h } => self.begin(s.global_resize(w, h)),
            SessionEvent::Load { classes, src } => self.begin(s.load(classes, src)),
            SessionEvent::LoadModule { code } => self.load_module(code),
            SessionEvent::Probe { name } => self.begin(s.probe(name)),
            SessionEvent::Report { .. } => Ok((self, Seq::empty())),
        }
    }

    /// The session after an event. An operation that is refused changes
    /// nothing.
    pub open spec fn after_event(self, event: SessionEvent) -> SessionModel {
        match event {
            SessionEvent::Report { report } => self.finish(report).0,
            _ => match self.plan_of(event) {
                Ok((next, _)) => next,
                Err(_) => self,
            },
        }
    }

    /// The handle of a pane that an event hands out, if it hands one out:
    /// that is what a report does which lets a pane be registered.
    pub open spec fn hands_out(self, event: SessionEvent) -> Option<DivHandle> {
        match event {
            SessionEvent::Report { report } => match self.finish(report).1 {
                Ok(Outcome::Pane(h)) => Some(h),
                _ => None,
            },
            _ => None,
        }
    }

    /// The session after a sequence of events.
    pub open spec fn after_events(self, events: Seq<SessionEvent>) -> SessionModel
        decreases events.len(),
    {
        if events.len() == 0 {
            self
        } else {
            self.after_events(events.drop_last()).after_event(events.last())
        }
    }

    /// The number of indices that the session has issued so far.
    pub open spec fn issued(self) -> int {
        match self.state {
            Some(s) => s.panes.next as int,
            None => 0,
        }
    }
}

/// A planned session is well-formed and has issued as many indices as the
/// session that the plan was made on.
spec fn keeps_order(s: SessionModel, plan: Plan) -> bool {
    plan matches Ok(planned) ==> planned.0.wf() && planned.0.issued() == s.issued()
}

/// Operations on panes that are registered plan a session in order.
proof fn lemma_pane_plans_keep_order(
    s: SessionModel,
    p: DivHandle,
    x: Option<u32>,
    y: Option<u32>,
    w: Option<u32>,
    h: Option<u32>,
)
    requires
        s.wf(),
    ensures
        keeps_order(s, s.begin(s.state->0.hide_pane(p))),
        keeps_order(s, s.begin(s.state->0.show_pane(p))),
        keeps_order(s, s.begin(s.state->0.delete_pane(p))),
        keeps_order(s, s.begin(s.state->0.update_pane(p, x, y, w, h))),
{
}

/// Operations on the global frame plan a session in order.
proof fn lemma_global_plans_keep_order(s: SessionModel, x: u32, y: u32)
    requires
        s.wf(),
    ensures
        keeps_order(s, s.begin(s.state->0.global_reposition(x, y))),
        keeps_order(s, s.begin(s.state->0.global_resize(x, y))),
{
}

/// The creation of a pane plans a session in order.
proof fn lemma_new_pane_keeps_order(
    s: SessionModel,
    x: u32,
    y: u32,
    w: u32,
    h: u32,
    html: Seq<char>,
    classes: Seq<char>,
    css: Seq<char>,
    component: Option<JsClassHandle>,
)
    requires
        s.wf(),
    ensures
        keeps_order(s, s.begin(s.state->0.new_pane(x, y, w, h, html, classes, css, component))),
{
}

/// Operations on classes and modules, and the initialisation, plan a
/// session in order.
proof fn lemma_other_plans_keep_order(
    s: SessionModel,
    id: Option<Seq<char>>,
    pos: (u32, u32),
    size: Option<(u32, u32)>,
    classes: Seq<Seq<char>>,
    text: Seq<char>,
)
    requires
        s.wf(),
    ensures
        keeps_order(s, s.init(id, pos, size)),
        keeps_order(s, s.begin(s.state->0.load(classes, text))),
        keeps_order(s, s.load_module(text)),
        keeps_order(s, s.begin(s.state->0.probe(text))),
{
}

/// A report leaves a session in order, and a handle that it hands out
/// wraps the number of indices issued before.
proof fn lemma_report_keeps_order(s: SessionModel, report: Result<HostReply, PanesError>)
    requires
        s.wf(),
    ensures
        s.finish(report).0.wf(),
        s.finish(report).0.issued() >= s.issued(),
        s.finish(report).1 matches Ok(Outcome::Pane(h)) ==> h.0 == s.issued() && s.finish(
            report,
        ).0.issued() == h.0 + 1 && s.finish(report).0.state is Some && s.finish(
            report,
        ).0.state->0.panes.contains(h.0),
{
}

/// Whatever happens to a well-formed session, it stays well-formed and the
/// number of issued indices does not fall. A handle that is handed out
/// wraps the number of indices issued before, and counts as issued after.
pub proof fn law_event_keeps_order(s: SessionModel, event: SessionEvent)
    requires
        s.wf(),
    ensures
        s.after_event(event).wf(),
        s.after_event(event).issued() >= s.issued(),
        s.hands_out(event) matches Some(h) ==> h.0 == s.issued() && s.after_event(event).issued()
            == h.0 + 1 && s.after_event(event).state->0.panes.contains(h.0),
{
    match event {
        SessionEvent::Init { id, pos, size } => {
            lemma_other_plans_keep_order(s, id, pos, size, Seq::empty(), Seq::empty());
        },
        SessionEvent::NewPane { x, y, w, h, html, classes, css, component } => {
            lemma_new_pane_keeps_order(s, x, y, w, h, html, classes, css, component);
        },
        SessionEvent::Hide { p } => {
            lemma_pane_plans_keep_order(s, p, None, None, None, None);
        },
        SessionEvent::Show { p } => {
            lemma_pane_plans_keep_order(s, p, None, None, None, None);
        },
        SessionEvent::Delete { p } => {
            lemma_pane_plans_keep_order(s, p, None, None, None, None);
        },
        SessionEvent::Update { p, x, y, w, h } => {
            lemma_pane_plans_keep_order(s, p, x, y, w, h);
        },
        SessionEvent::GlobalReposition { x, y } => {
            lemma_global_plans_keep_order(s, x, y);
        },
        SessionEvent::GlobalResize { w, h } => {
            lemma_global_plans_keep_order(s, w, h);
        },
        SessionEvent::Load { classes, src } => {
            lemma_other_plans_keep_order(s, None, (0, 0), None, classes, src);
        },
        SessionEvent::LoadModule { code } => {
            lemma_other_plans_keep_order(s, None, (0, 0), None, Seq::empty(), code);
        },
        SessionEvent::Probe { name } => {
            lemma_other_plans_keep_order(s, None, (0, 0), None, Seq::empty(), name);
        },
        SessionEvent::Report { report } => {
            lemma_report_keeps_order(s, report);
        },
    }
}

/// Whatever happens to a well-formed session in whatever order, it stays
/// well-formed and the number of issued indices does not fall.
pub proof fn law_events_keep_order(s: SessionModel, events: Seq<SessionEvent>)
    requires
        s.wf(),
    ensures
        s.after_events(events).wf(),
        s.after_events(events).issued() >= s.issued(),
    decreases events.len(),
{
    if events.len() > 0 {
        law_events_keep_order(s, events.drop_last());
        law_event_keeps_order(s.after_events(events.drop_last()), events.last());
    }
}

/// Two sequences of events one after the other are the one sequence that
/// they form together.
pub proof fn lemma_after_events_splits(
    s: SessionModel,
    first: Seq<SessionEvent>,
    then: Seq<SessionEvent>,
)
    ensures
        s.after_events(first + then) == s.after_events(first).after_events(then),
    decreases then.len(),
{
    if then.len() == 0 {
        assert(first + then == first);
    } else {
        lemma_after_events_splits(s, first, then.drop_last());
        assert((first + then).drop_last() == first + then.drop_last());
        assert((first + then).last() == then.last());
    }
}

/// No handle is handed out twice in the history of a session: whatever
/// operations are started and whatever the host reports, a handle that is
/// handed out wraps a greater index than every handle that was handed out
/// before it, deleted since or not.
pub proof fn law_session_handles_rise(s: SessionModel, events: Seq<SessionEvent>, i: int, j: int)
    requires
        s.wf(),
        0 <= i < j < events.len(),
        s.after_events(events.take(i)).hands_out(events[i]) is Some,
        s.after_events(events.take(j)).hands_out(events[j]) is Some,
    ensures
        ({
            let earlier = s.after_events(events.take(i)).hands_out(events[i])->Some_0;
            let later = s.after_events(events.take(j)).hands_out(events[j])->Some_0;
            earlier.0 < later.0
        }),
{
    let at_i = s.after_events(events.take(i));
    let past_i = s.after_events(events.take(i + 1));
    let at_j = s.after_events(events.take(j));
    let rest = events.subrange(i + 1, j);
    // up to event i the session stays in order, and event i issues an index
    law_events_keep_order(s, events.take(i));
    law_event_keeps_order(at_i, events[i]);
    assert(events.take(i + 1).drop_last() == events.take(i));
    assert(past_i == at_i.after_event(events[i]));
    // from there to event j no index is taken back
    assert(events.take(i + 1) + rest == events.take(j));
    lemma_after_events_splits(s, events.take(i + 1), rest);
    law_events_keep_order(past_i, rest);
    law_event_keeps_order(at_j, events[j]);
}

} // verus!
