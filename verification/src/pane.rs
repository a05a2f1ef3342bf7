//! What each operation on panes plans: the change to the state and the work
//! for the host that goes with it.

use vstd::prelude::*;
use vstd::string::*;
use crate::class::load::{build_class_loading_module, counted_module};
use crate::class::JsClassHandle;
use crate::div_handle::DivHandle;
use crate::error::PanesError;
use crate::host::{HostAction, NodeRef, Work};
use crate::model::{StateModel, Step};
use crate::state::{GlobalState, Pending};
use crate::storage::Pane;
use crate::text::texts;
use crate::transform::{LocalRect, Ratio, Transform};

verus! {

/// A planned operation in executable form: the work for the host and what
/// to wait for, or the error.
pub(crate) type Planned = Result<(Vec<HostAction>, Pending), PanesError>;

/// Whether the state went from `before` to `after`, with the result `r`, as
/// `step` says.
pub(crate) open spec fn stepped(before: StateModel, after: StateModel, r: Planned, step: Step) -> bool {
    match step {
        Ok((s, w, work)) => r is Ok && r->Ok_0.0.deep_view() =~= work && r->Ok_0.1@ =~= w && after
            =~= s,
        Err(e) => r is Err && r->Err_0 == e && after =~= before,
    }
}

impl Pane {
    /// Where the pane stands on the host surface under a transform.
    pub open spec fn spec_redraw(self, transform: Transform) -> Work {
        Work::Place { node: self.node, rect: transform.place(self.local) }
    }

    /// The work that places the pane anew under a transform.
    pub fn redraw(&self, transform: &Transform) -> (a: HostAction)
        ensures
            a@ == self.spec_redraw(*transform),
    {
        HostAction::Place { node: self.node, rect: transform.absolute(&self.local) }
    }

    /// The work that sets a style property of the pane.
    pub fn set_css(&self, property: &str, value: &str) -> (a: HostAction)
        ensures
            a@ == (Work::SetStyleProperty { node: self.node, name: property@, value: value@ }),
    {
        HostAction::SetStyleProperty {
            node: self.node,
            name: property.to_owned(),
            value: value.to_owned(),
        }
    }

    /// The work that adds a class to the pane.
    pub fn add_class(&self, css_class: &str) -> (a: HostAction)
        ensures
            a@ == (Work::AddClass { node: self.node, class: css_class@ }),
    {
        HostAction::AddClass { node: self.node, class: css_class.to_owned() }
    }

    /// The work that removes a class from the pane.
    pub fn remove_class(&self, css_class: &str) -> (a: HostAction)
        ensures
            a@ == (Work::RemoveClass { node: self.node, class: css_class@ }),
    {
        HostAction::RemoveClass { node: self.node, class: css_class.to_owned() }
    }
}

impl GlobalState {
    /// Plans a new pane.
    pub(crate) fn new_pane(
        &self,
        x: u32,
        y: u32,
        w: u32,
        h: u32,
        html: &str,
        classes: &str,
        css: &str,
        component: Option<JsClassHandle>,
    ) -> (r: Planned)
        ensures
            stepped(self@, self@, r, self@.new_pane(x, y, w, h, html@, classes@, css@, component)),
    {
        let name: Option<String> = match component {
            Some(c) => match self.classes.get(c) {
                Some(class) => Some(class.name().to_owned()),
                None => {
                    return Err(PanesError::NotAllocated);
                },
            },
            None => None,
        };
        if self.nodes.next_index() == usize::MAX {
            return Err(PanesError::NotAllocated);
        }
        let local = LocalRect::recorded((self.transform.ox, self.transform.oy), x, y, w, h);
        let mut class_name = String::from_str("div-rs");
        class_name.append(classes);
        let action = HostAction::CreateNode {
            class_name,
            html: html.to_owned(),
            style: css.to_owned(),
            rect: self.transform.absolute(&local),
            component: name,
        };
        let mut actions: Vec<HostAction> = Vec::new();
        actions.push(action);
        Ok((actions, Pending::Create { local }))
    }

    /// Plans the hiding of a pane.
    pub(crate) fn hide_pane(&self, p: &DivHandle) -> (r: Planned)
        ensures
            stepped(self@, self@, r, self@.hide_pane(*p)),
    {
        let v = match self.nodes.get(p) {
            Ok(v) => *v,
            Err(e) => {
                return Err(e);
            },
        };
        let mut actions: Vec<HostAction> = Vec::new();
        if v.displayed {
            actions.push(HostAction::Detach { node: v.node });
        }
        Ok((actions, Pending::Hide { handle: *p }))
    }

    /// Plans the showing of a pane.
    pub(crate) fn show_pane(&self, p: &DivHandle) -> (r: Planned)
        ensures
            stepped(self@, self@, r, self@.show_pane(*p)),
    {
        let v = match self.nodes.get(p) {
            Ok(v) => *v,
            Err(e) => {
                return Err(e);
            },
        };
        let mut actions: Vec<HostAction> = Vec::new();
        if !v.displayed {
            actions.push(HostAction::Attach { node: v.node });
        }
        Ok((actions, Pending::Show { handle: *p }))
    }

    /// Plans the deletion of a pane.
    pub(crate) fn delete_pane(&self, p: &DivHandle) -> (r: Planned)
        ensures
            stepped(self@, self@, r, self@.delete_pane(*p)),
    {
        let v = match self.nodes.get(p) {
            Ok(v) => *v,
            Err(e) => {
                return Err(e);
            },
        };
        let mut actions: Vec<HostAction> = Vec::new();
        if v.displayed {
            actions.push(HostAction::Detach { node: v.node });
        }
        actions.push(HostAction::Release { node: v.node });
        Ok((actions, Pending::Delete { handle: *p }))
    }

    /// The display object of a pane.
    pub(crate) fn get_node(&self, p: &DivHandle) -> (r: Result<NodeRef, PanesError>)
        ensures
            r == self@.node(*p),
    {
        match self.nodes.get(p) {
            Ok(v) => Ok(v.node),
            Err(e) => Err(e),
        }
    }

    /// Moves or resizes a pane and plans its new placement.
    pub(crate) fn update_pane(
        &mut self,
        pane_handle: &DivHandle,
        x: Option<u32>,
        y: Option<u32>,
        w: Option<u32>,
        h: Option<u32>,
    ) -> (r: Planned)
        ensures
            stepped(old(self)@, final(self)@, r, old(self)@.update_pane(*pane_handle, x, y, w, h)),
    {
        let transform = self.transform;
        let v = match self.nodes.get_mut(pane_handle) {
            Ok(v) => v,
            Err(e) => {
                return Err(e);
            },
        };
        v.local = LocalRect {
            x: match x {
                Some(d) => v.local.x.saturating_add(d as u64),
                None => v.local.x,
            },
            y: match y {
                Some(d) => v.local.y.saturating_add(d as u64),
                None => v.local.y,
            },
            w: match w {
                Some(n) => n,
                None => v.local.w,
            },
            h: match h {
                Some(n) => n,
                None => v.local.h,
            },
        };
        let mut actions: Vec<HostAction> = Vec::new();
        actions.push(v.redraw(&transform));
        Ok((actions, Pending::Settle))
    }

    /// The work that places every pane anew.
    pub(crate) fn sweep(&self) -> (actions: Vec<HostAction>)
        ensures
            actions.deep_view() =~= self@.sweep(),
    {
        let transform = self.transform;
        let place = |pane: &Pane| -> (r: Result<HostAction, PanesError>)
            ensures
                r is Ok && r->Ok_0@ == pane.spec_redraw(transform),
            { Ok(pane.redraw(&transform)) };
        match self.nodes.for_each(&place) {
            Ok(actions) => actions,
            Err(_) => Vec::new(),
        }
    }

    /// Moves the global origin and plans the new placement of every pane.
    pub(crate) fn global_reposition(&mut self, x: u32, y: u32) -> (r: Planned)
        ensures
            stepped(old(self)@, final(self)@, r, old(self)@.global_reposition(x, y)),
    {
        self.transform = Transform { ox: x, oy: y, zx: self.transform.zx, zy: self.transform.zy };
        let actions = self.sweep();
        Ok((actions, Pending::Settle))
    }

    /// Resizes the global frame and plans the new placement of every pane.
    pub(crate) fn global_resize(&mut self, w: u32, h: u32) -> (r: Planned)
        ensures
            stepped(old(self)@, final(self)@, r, old(self)@.global_resize(w, h)),
    {
        if let Some((width, height)) = self.size {
            self.transform = Transform {
                ox: self.transform.ox,
                oy: self.transform.oy,
                zx: Ratio { num: w, den: width },
                zy: Ratio { num: h, den: height },
            };
            let actions = self.sweep();
            Ok((actions, Pending::Settle))
        } else {
            Err(PanesError::UndefinedSize)
        }
    }

    /// Registers classes and plans the loading of the module that brings
    /// them.
    pub(crate) fn load(&mut self, classes: &[&str], src: &str) -> (r: Planned)
        ensures
            stepped(old(self)@, final(self)@, r, old(self)@.load(texts(classes@), src@)),
    {
        let code = build_class_loading_module(classes, src);
        let handles = self.classes.load(classes);
        let mut actions: Vec<HostAction> = Vec::new();
        actions.push(HostAction::InjectModule { code: counted_module(code) });
        proof {
            assert(crate::class::places(handles@) =~= StateModel::issued(
                old(self)@.classes.len() as int,
                texts(classes@).len() as int,
            ));
        }
        Ok((actions, Pending::Load { handles }))
    }

    /// Plans the search for a class by name.
    pub(crate) fn probe(&self, name: &str) -> (r: Planned)
        ensures
            stepped(self@, self@, r, self@.probe(name@)),
    {
        let mut actions: Vec<HostAction> = Vec::new();
        match self.classes.find_by_name(name) {
            Some(class) => Ok((actions, Pending::Known { class })),
            None => {
                actions.push(HostAction::ProbeComponent { name: name.to_owned() });
                Ok((actions, Pending::Probe { name: name.to_owned() }))
            },
        }
    }
}

} // verus!
