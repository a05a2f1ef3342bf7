//! Components that the host defines, known to the library by name.

use vstd::prelude::*;
use vstd::string::*;

pub mod load;

verus! {

/// The key to a registered class: its place in the list of classes.
#[derive(Debug, Hash, Clone, Copy, Eq, PartialEq, Structural)]
pub struct JsClassHandle {
    pub index: usize,
}

/// A class that the host can instantiate inside a pane.
#[derive(Debug, Hash, Clone, Eq, PartialEq)]
pub struct JsClass {
    name: String,
}

impl View for JsClass {
    type V = Seq<char>;

    closed spec fn view(&self) -> Seq<char> {
        self.name@
    }
}

impl JsClass {
    /// The name by which the host knows the class.
    pub fn name(&self) -> (n: &str)
        ensures
            n@ == self@,
    {
        self.name.as_str()
    }
}

/// The place in the list of classes that each of `handles` names.
pub open spec fn places(handles: Seq<JsClassHandle>) -> Seq<int> {
    handles.map_values(|h: JsClassHandle| h.index as int)
}

/// Whether `handles` name, one by one, the places `wanted` of the list of
/// classes.
pub open spec fn name_places(handles: Seq<JsClassHandle>, wanted: Seq<int>) -> bool {
    &&& handles.len() == wanted.len()
    &&& forall|k: int| 0 <= k < handles.len() ==> (#[trigger] handles[k]).index == wanted[k]
}

/// The place in the list of classes that an optional handle names.
pub open spec fn place(handle: Option<JsClassHandle>) -> Option<int> {
    match handle {
        Some(h) => Some(h.index as int),
        None => None,
    }
}

/// The place of the first class called `name` in a list of class names.
pub open spec fn first_named(names: Seq<Seq<char>>, name: Seq<char>) -> Option<int> {
    if exists|i: int| 0 <= i < names.len() && names[i] == name {
        Some(choose|i: int| 0 <= i < names.len() && names[i] == name
            && forall|k: int| 0 <= k < i ==> names[k] != name)
    } else {
        None
    }
}

/// The classes that a session knows, in the order in which they were
/// registered. The list only grows.
#[derive(Debug)]
pub struct JsClassStorage {
    data: Vec<JsClass>,
}

impl View for JsClassStorage {
    type V = Seq<Seq<char>>;

    closed spec fn view(&self) -> Seq<Seq<char>> {
        self.data@.map_values(|c: JsClass| c@)
    }
}

impl JsClassStorage {
    /// An empty list of classes.
    pub fn new() -> (s: JsClassStorage)
        ensures
            s@ == Seq::<Seq<char>>::empty(),
    {
        JsClassStorage { data: Vec::new() }
    }

    /// The class under a handle, if the handle is one of this list.
    pub fn get(&self, class: JsClassHandle) -> (r: Option<&JsClass>)
        ensures
            class.index < self@.len() ==> r is Some && r->0@ == self@[class.index as int],
            class.index >= self@.len() ==> r is None,
    {
        if class.index < self.data.len() {
            Some(&self.data[class.index])
        } else {
            None
        }
    }

    /// Adds a class to the end of the list.
    pub fn register(&mut self, name: &str) -> (h: JsClassHandle)
        ensures
            h.index == old(self)@.len(),
            final(self)@ == old(self)@.push(name@),
    {
        let index = self.data.len();
        let class = JsClass { name: name.to_owned() };
        self.data.push(class);
        assert(self@ =~= old(self)@.push(name@));
        JsClassHandle { index }
    }

    /// Adds each of `classes` to the list, whether or not a class of that
    /// name is there already, and hands out their handles in the same order.
    pub fn load(&mut self, classes: &[&str]) -> (out: Vec<JsClassHandle>)
        ensures
            final(self)@ == old(self)@ + crate::text::texts(classes@),
            out@.len() == classes@.len(),
            forall|i: int|
                0 <= i < classes@.len() ==> (#[trigger] out@[i]).index == old(self)@.len() + i,
    {
        let mut out: Vec<JsClassHandle> = Vec::new();
        let mut i: usize = 0;
        while i < classes.len()
            invariant
                i <= classes.len(),
                self@ == old(self)@ + crate::text::texts(classes@).take(i as int),
                out@.len() == i,
                forall|k: int| 0 <= k < i ==> (#[trigger] out@[k]).index == old(self)@.len() + k,
            decreases classes.len() - i,
        {
            let ghost all = crate::text::texts(classes@);
            let h = self.register(classes[i]);
            out.push(h);
            assert(all.take(i as int + 1) =~= all.take(i as int).push(classes@[i as int]@));
            i += 1;
        }
        out
    }

    /// The handle of the first class called `name`.
    pub fn find_by_name(&self, name: &str) -> (r: Option<JsClassHandle>)
        ensures
            match first_named(self@, name@) {
                Some(i) => r is Some && r->0.index == i && 0 <= i < self@.len() && self@[i]
                    == name@,
                None => r is None,
            },
    {
        let wanted = name.to_owned();
        let mut i: usize = 0;
        while i < self.data.len()
            invariant
                i <= self.data.len(),
                wanted@ == name@,
                forall|k: int| 0 <= k < i ==> self@[k] != name@,
            decreases self.data.len() - i,
        {
            if self.data[i].name == wanted {
                proof {
                    // the first place that holds the name is this one
                    let w = i as int;
                    assert(self@[w] == self.data@[w].name@);
                    let c = first_named(self@, name@)->0;
                    assert(0 <= c < self@.len() && self@[c] == name@
                        && forall|k: int| 0 <= k < c ==> self@[k] != name@) by {
                        assert(0 <= w < self@.len() && self@[w] == name@
                            && forall|k: int| 0 <= k < w ==> self@[k] != name@);
                    }
                    assert(c == w);
                }
                return Some(JsClassHandle { index: i });
            }
            i += 1;
        }
        None
    }

    /// The handle of the class called `name`: the one that is registered
    /// under that name already, or else a new one if the host knows a
    /// component of that name, as `exists_on_host` tells.
    pub fn preloaded(&mut self, name: &str, exists_on_host: bool) -> (r: Option<JsClassHandle>)
        ensures
            match first_named(old(self)@, name@) {
                Some(i) => r is Some && r->0.index == i && final(self)@ == old(self)@,
                None => if exists_on_host {
                    r is Some && r->0.index == old(self)@.len() && final(self)@ == old(self)@.push(
                        name@,
                    )
                } else {
                    r is None && final(self)@ == old(self)@
                },
            },
            r matches Some(h) ==> h.index < final(self)@.len() && final(self)@[h.index as int]
                == name@,
    {
        if let Some(class) = self.find_by_name(name) {
            return Some(class);
        }
        if exists_on_host {
            let class_handle = self.register(name);
            return Some(class_handle);
        }
        None
    }
}

} // verus!
