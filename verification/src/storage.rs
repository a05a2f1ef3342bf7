//! The registry of panes: every pane under an index that is never reused.

use vstd::prelude::*;
use crate::div_handle::DivHandle;
use crate::error::PanesError;
use crate::host::NodeRef;
use crate::transform::LocalRect;

verus! {

/// What the registry records of one pane.
#[derive(Debug, Clone, Copy, PartialEq, Eq, Structural)]
pub struct Pane {
    /// The display object that shows the pane; the host owns it.
    pub node: NodeRef,
    /// Whether the display object is attached to the root.
    pub displayed: bool,
    /// The pane's own rectangle.
    pub local: LocalRect,
}

/// The error for an index under which no pane is registered: the index was
/// issued once if it lies below the next index to issue, and never otherwise.
pub open spec fn spec_index_error(index: usize, next: usize) -> PanesError {
    if next > index {
        PanesError::UseAfterDelete
    } else {
        PanesError::NotAllocated
    }
}

/// The registry as a mathematical value: the registered panes, each under
/// its index, and the next index to issue.
#[verifier::ext_equal]
pub struct RegistryModel {
    /// The registered panes.
    pub panes: Map<usize, Pane>,
    /// The next index to issue.
    pub next: usize,
}

impl RegistryModel {
    /// Every pane is registered under an index that was issued: one below
    /// `next`.
    pub open spec fn wf(self) -> bool {
        forall|i: usize| #[trigger] self.panes.dom().contains(i) ==> i < self.next
    }

    /// The registry that holds no pane and has issued no index.
    pub open spec fn empty() -> RegistryModel {
        RegistryModel { panes: Map::empty(), next: 0 }
    }

    /// Whether a pane is registered under `index`.
    pub open spec fn contains(self, index: usize) -> bool {
        self.panes.dom().contains(index)
    }

    /// The pane registered under `index`.
    pub open spec fn pane(self, index: usize) -> Pane {
        self.panes[index]
    }

    /// What a lookup of `index` gives.
    pub open spec fn lookup(self, index: usize) -> Result<Pane, PanesError> {
        if self.contains(index) {
            Ok(self.pane(index))
        } else {
            Err(spec_index_error(index, self.next))
        }
    }

    /// Whether an index is left to issue.
    pub open spec fn has_room(self) -> bool {
        self.next < usize::MAX
    }

    /// The registry after `pane` was registered under the next index.
    pub open spec fn inserted(self, pane: Pane) -> RegistryModel {
        RegistryModel { panes: self.panes.insert(self.next, pane), next: (self.next + 1) as usize }
    }

    /// The registry after the pane under `index` was taken out.
    pub open spec fn removed(self, index: usize) -> RegistryModel {
        RegistryModel { panes: self.panes.remove(index), next: self.next }
    }

    /// The registry after the record of the pane under `index` was replaced.
    pub open spec fn replaced(self, index: usize, pane: Pane) -> RegistryModel {
        RegistryModel { panes: self.panes.insert(index, pane), next: self.next }
    }

    /// The indices below `n` under which a pane is registered, in rising
    /// order.
    pub open spec fn indices_below(self, n: nat) -> Seq<usize>
        decreases n,
    {
        if n == 0 {
            Seq::empty()
        } else if self.contains((n - 1) as usize) {
            self.indices_below((n - 1) as nat).push((n - 1) as usize)
        } else {
            self.indices_below((n - 1) as nat)
        }
    }

    /// The indices of the registered panes in rising order, which is the
    /// order in which the panes were registered.
    pub open spec fn indices(self) -> Seq<usize> {
        self.indices_below(self.next as nat)
    }
}

/// Indices rise strictly along `indices`, and all lie below `next`.
spec fn rising(indices: Seq<usize>, next: usize) -> bool {
    &&& forall|i: int, j: int| 0 <= i < j < indices.len() ==> indices[i] < indices[j]
    &&& forall|i: int| 0 <= i < indices.len() ==> indices[i] < next
}

/// The place of `index` in `indices`.
spec fn place_of(indices: Seq<usize>, index: usize) -> int {
    choose|k: int| 0 <= k < indices.len() && indices[k] == index
}

/// The registry that holds the panes `panes` under the indices `indices`,
/// place by place.
spec fn registry_of(indices: Seq<usize>, panes: Seq<Pane>, next: usize) -> RegistryModel {
    RegistryModel {
        panes: Map::new(
            |i: usize| exists|k: int| 0 <= k < indices.len() && indices[k] == i,
            |i: usize| panes[place_of(indices, i)],
        ),
        next,
    }
}

/// Each place of a rising list of indices holds an index of the registry,
/// and the pane beside it is the pane under that index.
proof fn lemma_slot(indices: Seq<usize>, panes: Seq<Pane>, next: usize, k: int)
    requires
        rising(indices, next),
        0 <= k < indices.len(),
    ensures
        registry_of(indices, panes, next).contains(indices[k]),
        place_of(indices, indices[k]) == k,
        registry_of(indices, panes, next).pane(indices[k]) == panes[k],
{
    // indices rise strictly, so no other place holds the same index
    let p = place_of(indices, indices[k]);
    assert(indices[p] == indices[k]);
    assert(p == k);
}

/// The registry of a rising list of indices is well-formed.
proof fn lemma_registry_wf(indices: Seq<usize>, panes: Seq<Pane>, next: usize)
    requires
        rising(indices, next),
    ensures
        registry_of(indices, panes, next).wf(),
{
}

/// The indices of a registry below `n`, in rising order, are the start of
/// any rising list of its indices: the places up to the one that is handed
/// back.
proof fn lemma_indices_below(m: RegistryModel, indices: Seq<usize>, n: nat) -> (c: int)
    requires
        forall|i: int, j: int| 0 <= i < j < indices.len() ==> indices[i] < indices[j],
        forall|i: usize|
            m.contains(i) <==> exists|k: int| 0 <= k < indices.len() && indices[k] == i,
        n <= usize::MAX + 1,
    ensures
        0 <= c <= indices.len(),
        m.indices_below(n) == indices.take(c),
        forall|k: int| 0 <= k < c ==> indices[k] < n,
        forall|k: int| c <= k < indices.len() ==> indices[k] >= n,
    decreases n,
{
    if n == 0 {
        0
    } else {
        let c = lemma_indices_below(m, indices, (n - 1) as nat);
        let top = (n - 1) as usize;
        if m.contains(top) {
            // the place of `top` is `c`: all before it lie below `top`,
            // and nothing from `c` on lies below it
            let j = choose|k: int| 0 <= k < indices.len() && indices[k] == top;
            if j > c {
                assert(indices[c] < indices[j]);
            }
            assert(indices[c] == top);
            assert(indices.take(c + 1) =~= indices.take(c).push(top));
            c + 1
        } else {
            c
        }
    }
}

/// The indices of the registry of a rising list of indices are that list.
proof fn lemma_indices(indices: Seq<usize>, panes: Seq<Pane>, next: usize)
    requires
        rising(indices, next),
    ensures
        registry_of(indices, panes, next).indices() == indices,
{
    let m = registry_of(indices, panes, next);
    let c = lemma_indices_below(m, indices, next as nat);
    if c < indices.len() {
        assert(indices[c] < next);
    }
    assert(indices.take(c) =~= indices);
}

/// Putting an index and a pane at the end of the lists registers the pane
/// under that index.
proof fn lemma_pushed(indices: Seq<usize>, panes: Seq<Pane>, next: usize, pane: Pane)
    requires
        rising(indices, next),
        indices.len() == panes.len(),
        next < usize::MAX,
    ensures
        registry_of(indices.push(next), panes.push(pane), (next + 1) as usize) == registry_of(
            indices,
            panes,
            next,
        ).inserted(pane),
{
    let before = registry_of(indices, panes, next);
    let after = registry_of(indices.push(next), panes.push(pane), (next + 1) as usize);
    assert forall|k: usize| after.panes.dom().contains(k) <==> before.inserted(pane).panes.dom().contains(k) by {
        if before.panes.dom().contains(k) {
            let at = place_of(indices, k);
            assert(indices.push(next)[at] == k);
        }
        if k == next {
            assert(indices.push(next)[indices.len() as int] == k);
        }
    }
    assert forall|k: usize| after.panes.dom().contains(k) implies after.panes[k] == before.inserted(pane).panes[k] by {
        let at = place_of(indices.push(next), k);
        lemma_slot(indices.push(next), panes.push(pane), (next + 1) as usize, at);
        if at < indices.len() {
            lemma_slot(indices, panes, next, at);
        }
    }
    assert(after.panes =~= before.inserted(pane).panes);
}

/// Taking one place out of the lists takes the pane under the index of
/// that place out of the registry.
proof fn lemma_taken_out(indices: Seq<usize>, panes: Seq<Pane>, next: usize, i: int)
    requires
        rising(indices, next),
        indices.len() == panes.len(),
        0 <= i < indices.len(),
    ensures
        registry_of(indices.remove(i), panes.remove(i), next) == registry_of(
            indices,
            panes,
            next,
        ).removed(indices[i]),
{
    let less = indices.remove(i);
    let fewer = panes.remove(i);
    let before = registry_of(indices, panes, next);
    let after = registry_of(less, fewer, next);
    let wanted = before.removed(indices[i]);
    lemma_slot(indices, panes, next, i);
    assert forall|k: usize| after.panes.dom().contains(k) <==> wanted.panes.dom().contains(k) by {
        if after.panes.dom().contains(k) {
            let at = place_of(less, k);
            let from = if at < i {
                at
            } else {
                at + 1
            };
            assert(indices[from] == k);
            lemma_slot(indices, panes, next, from);
        }
        if before.panes.dom().contains(k) && k != indices[i] {
            let from = place_of(indices, k);
            let at = if from < i {
                from
            } else {
                from - 1
            };
            assert(less[at] == k);
        }
    }
    assert forall|k: usize| after.panes.dom().contains(k) implies after.panes[k] == wanted.panes[k] by {
        let at = place_of(less, k);
        let from = if at < i {
            at
        } else {
            at + 1
        };
        lemma_slot(less, fewer, next, at);
        lemma_slot(indices, panes, next, from);
    }
    assert(after.panes =~= wanted.panes);
}

/// Changing the pane at one place of the lists replaces the record of the
/// pane under the index of that place.
proof fn lemma_updated(indices: Seq<usize>, panes: Seq<Pane>, next: usize, i: int, pane: Pane)
    requires
        rising(indices, next),
        indices.len() == panes.len(),
        0 <= i < indices.len(),
    ensures
        registry_of(indices, panes.update(i, pane), next) == registry_of(
            indices,
            panes,
            next,
        ).replaced(indices[i], pane),
{
    let after = registry_of(indices, panes.update(i, pane), next);
    let wanted = registry_of(indices, panes, next).replaced(indices[i], pane);
    lemma_slot(indices, panes, next, i);
    assert forall|k: usize| after.panes.dom().contains(k) implies after.panes[k] == wanted.panes[k] by {
        let at = place_of(indices, k);
        lemma_slot(indices, panes, next, at);
    }
    assert(after.panes =~= wanted.panes);
}

/// The indices of the registered panes, and beside each its record.
#[derive(Debug)]
struct Slots {
    indices: Vec<usize>,
    panes: Vec<Pane>,
}

/// The registry of panes.
///
/// Panes are kept in the order in which they were registered, which is the
/// rising order of their indices. So a walk over the registry has one
/// order, a pane is found by halving, and its record can be changed in
/// place.
#[derive(Debug)]
pub struct PaneStorage {
    slots: Slots,
    next_idx: usize,
}

impl View for PaneStorage {
    type V = RegistryModel;

    closed spec fn view(&self) -> RegistryModel {
        registry_of(self.slots.indices@, self.slots.panes@, self.next_idx)
    }
}

/// Whether `out` holds, place by place, what `f` handed out for the first
/// `n` panes of the registry, taken in the order of registration.
pub open spec fn walked<T, F: Fn(&Pane) -> Result<T, PanesError>>(
    m: RegistryModel,
    f: F,
    n: nat,
    out: Seq<T>,
) -> bool {
    &&& out.len() == n
    &&& n <= m.indices().len()
    &&& forall|k: int|
        0 <= k < n ==> call_ensures(
            f,
            (&m.pane(m.indices()[k]),),
            Ok::<T, PanesError>(#[trigger] out[k]),
        )
}

/// Tells a deleted pane from an index that was never issued.
pub fn index_error(p: &DivHandle, max_idx: usize) -> (e: PanesError)
    ensures
        e == spec_index_error(p.0, max_idx),
{
    if max_idx > p.0 {
        PanesError::UseAfterDelete
    } else {
        PanesError::NotAllocated
    }
}

impl PaneStorage {
    #[verifier::type_invariant]
    closed spec fn inv(&self) -> bool {
        &&& self.slots.indices@.len() == self.slots.panes@.len()
        &&& rising(self.slots.indices@, self.next_idx)
    }

    /// An empty registry that issues index 0 first.
    pub fn new() -> (s: PaneStorage)
        ensures
            s@ == RegistryModel::empty(),
            s@.wf(),
    {
        let s = PaneStorage { slots: Slots { indices: Vec::new(), panes: Vec::new() }, next_idx: 0 };
        s
    }

    /// Brings to mind that the registry is well-formed at all times.
    pub(crate) fn well_formed(&self)
        ensures
            self@.wf(),
    {
        proof {
            use_type_invariant(self);
            lemma_registry_wf(self.slots.indices@, self.slots.panes@, self.next_idx);
        }
    }

    /// The next index to issue.
    pub fn next_index(&self) -> (n: usize)
        ensures
            n == self@.next,
            self@.wf(),
    {
        self.well_formed();
        self.next_idx
    }

    /// The number of registered panes.
    pub fn len(&self) -> (n: usize)
        ensures
            n == self@.indices().len(),
            self@.wf(),
    {
        proof {
            use_type_invariant(self);
            lemma_indices(self.slots.indices@, self.slots.panes@, self.next_idx);
            lemma_registry_wf(self.slots.indices@, self.slots.panes@, self.next_idx);
        }
        self.slots.indices.len()
    }

    /// Where the pane under `index` stands, if it is registered. Indices
    /// rise along the registry, so the place is found by halving.
    fn find(&self, index: usize) -> (r: Option<usize>)
        ensures
            match r {
                Some(i) => i < self.slots.indices@.len() && self.slots.indices@[i as int] == index
                    && self@.contains(index) && self@.pane(index) == self.slots.panes@[i as int],
                None => !self@.contains(index),
            },
    {
        proof {
            use_type_invariant(self);
        }
        let mut lo: usize = 0;
        let mut hi: usize = self.slots.indices.len();
        while lo < hi
            invariant
                lo <= hi <= self.slots.indices.len(),
                rising(self.slots.indices@, self.next_idx),
                forall|k: int| 0 <= k < lo ==> self.slots.indices@[k] < index,
                forall|k: int| hi <= k < self.slots.indices@.len() ==> self.slots.indices@[k] > index,
            decreases hi - lo,
        {
            let mid = lo + (hi - lo) / 2;
            let at = self.slots.indices[mid];
            if at == index {
                proof {
                    lemma_slot(self.slots.indices@, self.slots.panes@, self.next_idx, mid as int);
                }
                return Some(mid);
            } else if at < index {
                lo = mid + 1;
            } else {
                hi = mid;
            }
        }
        None
    }

    /// Issues the next index.
    fn next_id(&mut self) -> (i: usize)
        requires
            old(self)@.has_room(),
        ensures
            i == old(self).next_idx,
            final(self).next_idx == i + 1,
            final(self).slots == old(self).slots,
    {
        proof {
            use_type_invariant(&*self);
        }
        let i = self.next_idx;
        self.next_idx = i + 1;
        i
    }

    /// Registers a pane under the next index and hands out its handle.
    ///
    /// Fails with `NotAllocated`, changing nothing, once every index has been
    /// issued.
    pub fn insert(&mut self, p: Pane) -> (r: Result<DivHandle, PanesError>)
        ensures
            old(self)@.wf(),
            final(self)@.wf(),
            old(self)@.has_room() ==> r == Ok::<DivHandle, PanesError>(DivHandle(old(self)@.next))
                && final(self)@ == old(self)@.inserted(p),
            !old(self)@.has_room() ==> r == Err::<DivHandle, PanesError>(PanesError::NotAllocated)
                && final(self)@ == old(self)@,
    {
        proof {
            use_type_invariant(&*self);
        }
        if self.next_idx == usize::MAX {
            return Err(PanesError::NotAllocated);
        }
        let ghost indices = self.slots.indices@;
        let ghost panes = self.slots.panes@;
        let i = self.next_id();
        let mut slots = Slots { indices: Vec::new(), panes: Vec::new() };
        core::mem::swap(&mut slots, &mut self.slots);
        slots.indices.push(i);
        slots.panes.push(p);
        self.slots = slots;
        proof {
            lemma_pushed(indices, panes, i, p);
        }
        Ok(DivHandle(i))
    }

    /// Takes the pane under a handle out of the registry.
    pub fn remove(&mut self, p: &DivHandle) -> (r: Result<Pane, PanesError>)
        ensures
            old(self)@.wf(),
            final(self)@.wf(),
            r == old(self)@.lookup(p.0),
            r is Ok ==> final(self)@ == old(self)@.removed(p.0),
            r is Err ==> final(self)@ == old(self)@,
    {
        proof {
            use_type_invariant(&*self);
        }
        match self.find(p.0) {
            Some(i) => {
                let ghost indices = self.slots.indices@;
                let ghost panes = self.slots.panes@;
                let mut slots = Slots { indices: Vec::new(), panes: Vec::new() };
                core::mem::swap(&mut slots, &mut self.slots);
                let _ = slots.indices.remove(i);
                let pane = slots.panes.remove(i);
                self.slots = slots;
                proof {
                    lemma_taken_out(indices, panes, self.next_idx, i as int);
                }
                Ok(pane)
            },
            None => Err(index_error(p, self.next_idx)),
        }
    }

    /// Looks up the pane under a handle.
    pub fn get(&self, p: &DivHandle) -> (r: Result<&Pane, PanesError>)
        ensures
            self@.wf(),
            match r {
                Ok(pane) => self@.lookup(p.0) == Ok::<Pane, PanesError>(*pane),
                Err(e) => self@.lookup(p.0) == Err::<Pane, PanesError>(e),
            },
    {
        proof {
            use_type_invariant(self);
        }
        match self.find(p.0) {
            Some(i) => Ok(&self.slots.panes[i]),
            None => Err(index_error(p, self.next_idx)),
        }
    }

    /// Applies `f` to every registered pane, shown or hidden, in the order
    /// of registration, and collects what it hands out. The first error
    /// ends the walk and is handed on: then `f` has handed something out
    /// for each pane before the one that it failed on.
    pub fn for_each<T, F>(&self, f: &F) -> (r: Result<Vec<T>, PanesError>) where
        F: Fn(&Pane) -> Result<T, PanesError>,

        requires
            forall|i: usize| self@.contains(i) ==> call_requires(f, (&self@.pane(i),)),
        ensures
            self@.wf(),
            match r {
                Ok(out) => walked(self@, *f, self@.indices().len(), out@),
                Err(e) => exists|before: Seq<T>|
                    before.len() < self@.indices().len() && #[trigger] walked(
                        self@,
                        *f,
                        before.len(),
                        before,
                    ) && call_ensures(
                        f,
                        (&self@.pane(self@.indices()[before.len() as int]),),
                        Err::<T, PanesError>(e),
                    ),
            },
    {
        proof {
            use_type_invariant(self);
            lemma_indices(self.slots.indices@, self.slots.panes@, self.next_idx);
        }
        let mut out: Vec<T> = Vec::new();
        let n = self.slots.panes.len();
        let mut i: usize = 0;
        while i < n
            invariant
                i <= n,
                n == self.slots.panes@.len(),
                n == self.slots.indices@.len(),
                rising(self.slots.indices@, self.next_idx),
                self@.indices() == self.slots.indices@,
                forall|k: usize| self@.contains(k) ==> call_requires(f, (&self@.pane(k),)),
                walked(self@, *f, i as nat, out@),
            decreases n - i,
        {
            proof {
                lemma_slot(self.slots.indices@, self.slots.panes@, self.next_idx, i as int);
            }
            match f(&self.slots.panes[i]) {
                Ok(t) => {
                    out.push(t);
                },
                Err(e) => {
                    return Err(e);
                },
            }
            i += 1;
        }
        Ok(out)
    }

    /// Looks up the pane under a handle, to change its record in place.
    pub fn get_mut(&mut self, p: &DivHandle) -> (r: Result<&mut Pane, PanesError>)
        ensures
            old(self)@.wf(),
            final(self)@.wf(),
            match r {
                Ok(pane) => old(self)@.lookup(p.0) == Ok::<Pane, PanesError>(*pane) && final(self)@
                    == old(self)@.replaced(p.0, *final(pane)),
                Err(e) => old(self)@.lookup(p.0) == Err::<Pane, PanesError>(e) && final(self)@ == old(
                    self,
                )@,
            },
    {
        proof {
            use_type_invariant(&*self);
        }
        match self.find(p.0) {
            Some(i) => {
                proof {
                    let indices = self.slots.indices@;
                    let panes = self.slots.panes@;
                    let next = self.next_idx;
                    assert forall|pane: Pane| #[trigger]
                        registry_of(indices, panes.update(i as int, pane), next) == registry_of(
                            indices,
                            panes,
                            next,
                        ).replaced(p.0, pane) by {
                        lemma_updated(indices, panes, next, i as int, pane);
                    }
                }
                Ok(&mut self.slots.panes[i])
            },
            None => Err(index_error(p, self.next_idx)),
        }
    }
}

} // verus!
