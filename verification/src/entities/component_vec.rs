use super::Component;
use vstd::prelude::*;

verus! {

/// Calls `Vec::shrink_to_fit`, which std documents as shrinking the capacity as much as
/// possible; the contract claims only that the contents stay as they are.
#[verifier::external_body]
pub(crate) fn vec_shrink_to_fit<T>(vec: &mut Vec<T>)
    ensures
        final(vec)@ == old(vec)@,
{
    vec.shrink_to_fit();
}

/// Vector implementation for storing optional components, backed by a `Vec<Option<T>>`.
/// It behaves like an "infinitely sized" vector: slots past its end read as cleared.
pub struct ComponentVecImpl<T: Component> {
    backend: Vec<Option<T>>,
}

/// The component at `index` of a backing sequence, reading slots past its end as cleared.
pub open spec fn slot_of<T>(backend: Seq<Option<T>>, index: int) -> Option<T> {
    if 0 <= index < backend.len() {
        backend[index]
    } else {
        None
    }
}

/// `backend` with slot `index` set to `value`, grown with cleared slots if it is too short.
pub open spec fn with_slot<T>(backend: Seq<Option<T>>, index: int, value: Option<T>) -> Seq<Option<T>> {
    let len = if index < backend.len() { backend.len() as int } else { index + 1 };
    Seq::new(len as nat, |j: int| if j == index { value } else { slot_of(backend, j) })
}

/// `backend` with slot `index` cleared; slots past its end are already clear.
pub open spec fn cleared<T>(backend: Seq<Option<T>>, index: int) -> Seq<Option<T>> {
    if 0 <= index < backend.len() {
        backend.update(index, None)
    } else {
        backend
    }
}

/// Reading a slot after setting it gives the set component; every other slot reads as before.
pub proof fn lemma_get_after_set<T>(backend: Seq<Option<T>>, index: int, value: T, other: int)
    requires
        0 <= index,
    ensures
        slot_of(with_slot(backend, index, Some(value)), index) == Some(value),
        other != index ==> slot_of(with_slot(backend, index, Some(value)), other) == slot_of(backend, other),
{
}

/// A cleared slot reads as empty; every other slot reads as before.
pub proof fn lemma_get_after_clear<T>(backend: Seq<Option<T>>, index: int, other: int)
    ensures
        slot_of(cleared(backend, index), index) is None,
        other != index ==> slot_of(cleared(backend, index), other) == slot_of(backend, other),
{
}

/// Cutting trailing cleared slots twice cuts nothing more the second time.
pub proof fn lemma_trim_idempotent<T>(backend: Seq<Option<T>>)
    ensures
        trimmed_len(backend.subrange(0, trimmed_len(backend) as int)) == trimmed_len(backend),
    decreases backend.len(),
{
    if backend.len() > 0 && backend.last() is None {
        lemma_trim_idempotent(backend.drop_last());
        lemma_trimmed_len(backend.drop_last());
        assert(backend.drop_last().subrange(0, trimmed_len(backend.drop_last()) as int)
            =~= backend.subrange(0, trimmed_len(backend) as int));
    } else {
        assert(backend.subrange(0, trimmed_len(backend) as int) =~= backend);
    }
}

/// Shrinking keeps every component where it was.
pub proof fn lemma_trim_keeps_slots<T>(backend: Seq<Option<T>>, index: int)
    ensures
        slot_of(backend.subrange(0, trimmed_len(backend) as int), index) == slot_of(backend, index),
{
    lemma_trimmed_len(backend);
}

/// The length of `backend` once every trailing cleared slot is cut off.
pub open spec fn trimmed_len<T>(backend: Seq<Option<T>>) -> nat
    decreases backend.len(),
{
    if backend.len() == 0 {
        0
    } else if backend.last() is None {
        trimmed_len(backend.drop_last())
    } else {
        backend.len()
    }
}

/// Cutting off the trailing cleared slots keeps a prefix whose last slot, if any, is set.
pub proof fn lemma_trimmed_len<T>(backend: Seq<Option<T>>)
    ensures
        trimmed_len(backend) <= backend.len(),
        trimmed_len(backend) > 0 ==> backend[trimmed_len(backend) - 1] is Some,
        forall|j: int| trimmed_len(backend) <= j < backend.len() ==> backend[j] is None,
    decreases backend.len(),
{
    if backend.len() > 0 && backend.last() is None {
        let shorter = backend.drop_last();
        lemma_trimmed_len(shorter);
        assert forall|j: int| trimmed_len(backend) <= j < backend.len() implies backend[j] is None by {
            if j < shorter.len() {
                assert(backend[j] == shorter[j]);
            }
        }
    }
}

impl<T: Component> View for ComponentVecImpl<T> {
    type V = Seq<Option<T>>;

    closed spec fn view(&self) -> Seq<Option<T>> {
        self.backend@
    }
}

impl<T: Component> ComponentVecImpl<T> {
    /// The component stored at `index`, if any.
    pub open spec fn slot(&self, index: int) -> Option<T> {
        slot_of(self@, index)
    }

    /// Creates a new, empty [`ComponentVecImpl`].
    pub fn new() -> (r: Self)
        ensures
            r@ == Seq::<Option<T>>::empty(),
    {
        Self { backend: Vec::new() }
    }

    /// Returns a reference to the component at specified index. Returns [`None`], if the index
    /// is out of range, or the component is cleared.
    pub fn get(&self, index: u32) -> (r: Option<&T>)
        ensures
            r is Some <==> self.slot(index as int) is Some,
            r matches Some(c) ==> *c == self.slot(index as int)->0,
    {
        let i = index as usize;
        if i < self.backend.len() {
            match &self.backend[i] {
                Some(c) => Some(c),
                None => None,
            }
        } else {
            None
        }
    }

    /// The number of slots in the backing vector, set or cleared.
    pub fn slot_count(&self) -> (r: usize)
        ensures
            r == self@.len(),
    {
        self.backend.len()
    }

    /// The component at a backing-vector position given as a `usize`.
    pub(crate) fn slot_at(&self, i: usize) -> (r: Option<&T>)
        ensures
            r is Some <==> self.slot(i as int) is Some,
            r matches Some(c) ==> *c == self.slot(i as int)->0,
    {
        if i < self.backend.len() {
            match &self.backend[i] {
                Some(c) => Some(c),
                None => None,
            }
        } else {
            None
        }
    }

    /// Like [`ComponentVecImpl::get`], but returns a mutable reference.
    pub fn get_mut(&mut self, index: u32) -> (r: Option<&mut T>)
        ensures
            r is Some <==> old(self).slot(index as int) is Some,
            r matches Some(c) ==> *c == old(self).slot(index as int)->0
                && final(self)@ == old(self)@.update(index as int, Some(*final(c))),
            r is None ==> final(self)@ == old(self)@,
    {
        let i = index as usize;
        if i < self.backend.len() {
            match &mut self.backend[i] {
                Some(c) => Some(c),
                None => None,
            }
        } else {
            None
        }
    }

    /// Sets a specified component, growing the underlying vector if necessary.
    pub fn set(&mut self, index: u32, value: T)
        ensures
            final(self)@ == with_slot(old(self)@, index as int, Some(value)),
            final(self)@.len() == if (index as int) < old(self)@.len() {
                old(self)@.len() as int
            } else {
                index as int + 1
            },
            final(self).slot(index as int) == Some(value),
            forall|j: int| j != index ==> #[trigger] final(self).slot(j) == old(self).slot(j),
    {
        let i = index as usize;
        if i < self.backend.len() {
            self.backend.set(i, Some(value));
        } else {
            let ghost old_backend = self.backend@;
            while self.backend.len() < i
                invariant
                    old_backend.len() <= self.backend@.len() <= i,
                    forall|j: int| 0 <= j < old_backend.len() ==> self.backend@[j] == old_backend[j],
                    forall|j: int| old_backend.len() <= j < self.backend@.len() ==> self.backend@[j] is None,
                decreases i - self.backend@.len(),
            {
                self.backend.push(None);
            }
            self.backend.push(Some(value));
        }
        assert(self.backend@ =~= with_slot(old(self)@, index as int, Some(value)));
    }

    /// Checks if the given component is present in the vector.
    pub fn is_set(&self, index: u32) -> (r: bool)
        ensures
            r == self.slot(index as int) is Some,
    {
        let i = index as usize;
        if i < self.backend.len() {
            self.backend[i].is_some()
        } else {
            false
        }
    }

    /// Clears the specified component.
    pub fn clear(&mut self, index: u32)
        ensures
            final(self)@ == cleared(old(self)@, index as int),
    {
        let i = index as usize;
        if i < self.backend.len() {
            self.backend.set(i, None);
        }
    }

    /// Takes and clears the specified component.
    ///
    /// ## Panics
    /// Panics if the component doesn't exist; `requires` leaves that out.
    pub fn take(&mut self, index: u32) -> (r: T)
        requires
            old(self).slot(index as int) is Some,
        ensures
            r == old(self).slot(index as int)->0,
            final(self)@ == old(self)@.update(index as int, None),
    {
        let i = index as usize;
        let mut slot = None;
        self.backend.set_and_swap(i, &mut slot);
        match slot {
            Some(c) => c,
            None => {
                proof {
                    assert(false);
                }
                vstd::pervasive::unreached()
            },
        }
    }

    /// Shrinks the underlying vec's capacity, and cuts off any trailing clear components.
    pub fn shrink_to_fit(&mut self)
        ensures
            final(self)@ == old(self)@.subrange(0, trimmed_len(old(self)@) as int),
            forall|j: int| #[trigger] final(self).slot(j) == old(self).slot(j),
    {
        let ghost old_backend = self.backend@;
        let mut kept = self.backend.len();
        assert(old_backend.subrange(0, kept as int) =~= old_backend);
        while kept > 0 && self.backend[kept - 1].is_none()
            invariant
                self.backend@ == old_backend,
                kept <= old_backend.len(),
                trimmed_len(old_backend) == trimmed_len(old_backend.subrange(0, kept as int)),
            decreases kept,
        {
            assert(old_backend.subrange(0, kept as int).drop_last()
                =~= old_backend.subrange(0, kept - 1));
            kept = kept - 1;
        }
        proof {
            if kept > 0 {
                assert(old_backend.subrange(0, kept as int).last() is Some);
            }
            lemma_trimmed_len(old_backend);
        }
        self.backend.truncate(kept);
        vec_shrink_to_fit(&mut self.backend);
    }
}

/// A component vector seen without its component type, so that a deleted entity's components can
/// be cleared whatever their types.
pub trait ComponentVec {
    /// Whether the slot at `index` holds a component.
    spec fn is_set_at(&self, index: int) -> bool;

    /// Clears the specified component, leaving every other slot as it was.
    fn clear(&mut self, index: u32)
        ensures
            !final(self).is_set_at(index as int),
            forall|j: int| j != index ==> #[trigger] final(self).is_set_at(j) == old(self).is_set_at(j);

    /// Shrinks the vector's storage, keeping every component.
    fn shrink_to_fit(&mut self)
        ensures
            forall|j: int| #[trigger] final(self).is_set_at(j) == old(self).is_set_at(j);
}

impl<T: Component> ComponentVec for ComponentVecImpl<T> {
    open spec fn is_set_at(&self, index: int) -> bool {
        self.slot(index) is Some
    }

    fn clear(&mut self, index: u32) {
        ComponentVecImpl::clear(self, index);
    }

    fn shrink_to_fit(&mut self) {
        ComponentVecImpl::shrink_to_fit(self);
    }
}

} // verus!
