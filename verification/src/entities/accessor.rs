use super::component_vec::ComponentVecImpl;
use super::universe::{Universe, UniverseModel};
use super::{Component, Entity};
use vstd::prelude::*;

verus! {

/// Wrapper for accessing components from a single entity inside a universe.
/// For multiple accesses to a single entity using it is generally better, as any validation checks
/// can only be performed once.
pub struct EntityAccessor<'uni> {
    pub(super) universe: &'uni Universe,
    pub(super) entity: Entity,
}

impl<'uni> View for EntityAccessor<'uni> {
    type V = (UniverseModel, Entity);

    closed spec fn view(&self) -> (UniverseModel, Entity) {
        (self.universe@, self.entity)
    }
}

impl<'uni> EntityAccessor<'uni> {
    /// Makes an accessor for `entity` in `universe`.
    pub(super) fn make(universe: &'uni Universe, entity: Entity) -> (r: Self)
        ensures
            r@ == (universe@, entity),
    {
        EntityAccessor { universe, entity }
    }

    /// The universe the entity lives in.
    pub fn universe(&self) -> (r: &'uni Universe)
        ensures
            r@ == self@.0,
    {
        self.universe
    }

    /// The accessed entity.
    pub fn entity(&self) -> (r: Entity)
        ensures
            r == self@.1,
    {
        self.entity
    }

    /// The entity's component in `components`, if it has one.
    pub fn get_component<'c, T: Component>(&self, components: &'c ComponentVecImpl<T>) -> (r: Option<&'c T>)
        ensures
            r is Some <==> components.slot(self@.1.index as int) is Some,
            r matches Some(c) ==> *c == components.slot(self@.1.index as int)->0,
    {
        components.get(self.entity.index)
    }

    /// Whether the entity has a component in `components`.
    pub fn has_component<T: Component>(&self, components: &ComponentVecImpl<T>) -> (r: bool)
        ensures
            r == components.slot(self@.1.index as int) is Some,
    {
        components.is_set(self.entity.index)
    }
}

} // verus!

verus! {

/// Same as [`EntityAccessor`], but allows for mutation.
pub struct EntityAccessorMut<'uni> {
    pub(super) universe: &'uni mut Universe,
    pub(super) entity: Entity,
}

impl<'uni> View for EntityAccessorMut<'uni> {
    type V = (UniverseModel, Entity);

    closed spec fn view(&self) -> (UniverseModel, Entity) {
        (self.universe@, self.entity)
    }
}

impl<'uni> EntityAccessorMut<'uni> {
    /// Makes a mutable accessor for `entity` in `universe`.
    pub(super) fn make(universe: &'uni mut Universe, entity: Entity) -> (r: Self)
        ensures
            r@ == (old(universe)@, entity),
    {
        EntityAccessorMut { universe, entity }
    }

    /// The universe the entity lives in.
    pub fn universe(&'uni mut self) -> (r: &'uni mut Universe)
        ensures
            r@ == old(self)@.0,
            final(self)@ == (final(r)@, old(self)@.1),
    {
        self.universe
    }

    /// The accessed entity.
    pub fn entity(&self) -> (r: Entity)
        ensures
            r == self@.1,
    {
        self.entity
    }

    /// The entity's component in `components`, if it has one.
    pub fn get_component<'c, T: Component>(&self, components: &'c ComponentVecImpl<T>) -> (r: Option<&'c T>)
        ensures
            r is Some <==> components.slot(self@.1.index as int) is Some,
            r matches Some(c) ==> *c == components.slot(self@.1.index as int)->0,
    {
        components.get(self.entity.index)
    }

    /// The entity's component in `components` for mutation, if it has one.
    pub fn get_component_mut<'c, T: Component>(&self, components: &'c mut ComponentVecImpl<T>) -> (r: Option<&'c mut T>)
        ensures
            r is Some <==> old(components).slot(self@.1.index as int) is Some,
            r matches Some(c) ==> *c == old(components).slot(self@.1.index as int)->0
                && final(components)@ == old(components)@.update(self@.1.index as int, Some(*final(c))),
            r is None ==> final(components)@ == old(components)@,
    {
        components.get_mut(self.entity.index)
    }

    /// Whether the entity has a component in `components`.
    pub fn has_component<T: Component>(&self, components: &ComponentVecImpl<T>) -> (r: bool)
        ensures
            r == components.slot(self@.1.index as int) is Some,
    {
        components.is_set(self.entity.index)
    }

    /// Gives the entity `value` in `components`, replacing any component it had there.
    ///
    /// ## Panics
    ///  - if the entity is no longer valid; `requires` leaves that out
    pub fn add_component<T: Component>(&mut self, components: &mut ComponentVecImpl<T>, value: T)
        requires
            old(self)@.0.is_valid(old(self)@.1),
        ensures
            final(self)@ == old(self)@,
            final(components).slot(old(self)@.1.index as int) == Some(value),
            forall|j: int| j != old(self)@.1.index ==> #[trigger] final(components).slot(j) == old(components).slot(j),
    {
        self.universe.set_component(components, self.entity, value);
    }

    /// Takes the entity's component out of `components`.
    ///
    /// ## Panics
    ///  - if the entity has no such component; `requires` leaves that out
    pub fn remove_component<T: Component>(&mut self, components: &mut ComponentVecImpl<T>) -> (r: T)
        requires
            old(components).slot(old(self)@.1.index as int) is Some,
        ensures
            final(self)@ == old(self)@,
            r == old(components).slot(old(self)@.1.index as int)->0,
            final(components)@ == old(components)@.update(old(self)@.1.index as int, None),
    {
        components.take(self.entity.index)
    }
}

} // verus!
