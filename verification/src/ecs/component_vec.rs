use super::RegisteredComponent;
use crate::entities::component_vec::{
    cleared, lemma_trimmed_len, slot_of, trimmed_len, vec_shrink_to_fit, with_slot,
};
use vstd::prelude::*;

verus! {

/// Vector implementation for storing optional components. Backed by a `Vec<Option<T>>`.
/// Its internal functions make it work more like an "infinitely sized" vector.
pub struct ComponentVec<T: RegisteredComponent> {
    backend: Vec<Option<T>>,
}

impl<T: RegisteredComponent> View for ComponentVec<T> {
    type V = Seq<Option<T>>;

    closed spec fn view(&self) -> Seq<Option<T>> {
        self.backend@
    }
}

impl<T: RegisteredComponent> ComponentVec<T> {
    /// The component stored at `index`, if any.
    pub open spec fn slot(&self, index: int) -> Option<T> {
        slot_of(self@, index)
    }

    /// Creates a new [`ComponentVec`].
    pub fn new() -> (r: Self)
        ensures
            r@ == Seq::<Option<T>>::empty(),
    {
        Self { backend: Vec::new() }
    }

    /// Returns a reference to the component at specified index. Returns [`None`], if the index
    /// is out of range, or the component is cleared.
    pub fn get(&self, index: u32) -> (r: Option<&T>)
        ensures
            r is Some <==> self.slot(index as int) is Some,
            r matches Some(c) ==> *c == self.slot(index as int)->0,
    {
        let i = index as usize;
        if i < self.backend.len() {
            match &self.backend[i] {
                Some(c) => Some(c),
                None => None,
            }
        } else {
            None
        }
    }

    /// Like `ComponentVec::get`, but returns a mutable reference.
    pub fn get_mut(&mut self, index: u32) -> (r: Option<&mut T>)
        ensures
            r is Some <==> old(self).slot(index as int) is Some,
            r matches Some(c) ==> *c == old(self).slot(index as int)->0
                && final(self)@ == old(self)@.update(index as int, Some(*final(c))),
            r is None ==> final(self)@ == old(self)@,
    {
        let i = index as usize;
        if i < self.backend.len() {
            match &mut self.backend[i] {
                Some(c) => Some(c),
                None => None,
            }
        } else {
            None
        }
    }

    /// Sets a specified component, growing the underlying vector if necessary.
    pub fn set(&mut self, index: u32, value: T)
        ensures
            final(self)@ == with_slot(old(self)@, index as int, Some(value)),
    {
        let i = index as usize;
        if i < self.backend.len() {
            self.backend.set(i, Some(value));
        } else {
            let ghost old_backend = self.backend@;
            while self.backend.len() < i
                invariant
                    old_backend.len() <= self.backend@.len() <= i,
                    forall|j: int| 0 <= j < old_backend.len() ==> self.backend@[j] == old_backend[j],
                    forall|j: int| old_backend.len() <= j < self.backend@.len() ==> self.backend@[j] is None,
                decreases i - self.backend@.len(),
            {
                self.backend.push(None);
            }
            self.backend.push(Some(value));
        }
        assert(self.backend@ =~= with_slot(old(self)@, index as int, Some(value)));
    }

    /// Checks if the given component is present in the vector.
    pub fn is_set(&self, index: u32) -> (r: bool)
        ensures
            r == self.slot(index as int) is Some,
    {
        let i = index as usize;
        if i < self.backend.len() {
            self.backend[i].is_some()
        } else {
            false
        }
    }

    /// Clears the specified component.
    ///
    /// ## Panics
    /// With debug assertions, panics if the component is not present; `requires` leaves that out.
    pub fn clear(&mut self, index: u32)
        requires
            old(self).slot(index as int) is Some,
        ensures
            final(self)@ == cleared(old(self)@, index as int),
    {
        let i = index as usize;
        if i < self.backend.len() {
            self.backend.set(i, None);
        }
    }

    /// Shrinks the underlying vec's capacity, and cuts off any trailing clear components.
    pub fn optimize(&mut self)
        ensures
            final(self)@ == old(self)@.subrange(0, trimmed_len(old(self)@) as int),
            forall|j: int| #[trigger] final(self).slot(j) == old(self).slot(j),
    {
        let ghost old_backend = self.backend@;
        let mut kept = self.backend.len();
        assert(old_backend.subrange(0, kept as int) =~= old_backend);
        while kept > 0 && self.backend[kept - 1].is_none()
            invariant
                self.backend@ == old_backend,
                kept <= old_backend.len(),
                trimmed_len(old_backend) == trimmed_len(old_backend.subrange(0, kept as int)),
            decreases kept,
        {
            assert(old_backend.subrange(0, kept as int).drop_last()
                =~= old_backend.subrange(0, kept - 1));
            kept = kept - 1;
        }
        proof {
            if kept > 0 {
                assert(old_backend.subrange(0, kept as int).last() is Some);
            }
            lemma_trimmed_len(old_backend);
        }
        self.backend.truncate(kept);
        vec_shrink_to_fit(&mut self.backend);
    }
}

} // verus!
