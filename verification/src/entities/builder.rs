use super::component_vec::ComponentVecImpl;
use super::universe::{Universe, UniverseModel};
use super::{Component, Entity};
use vstd::prelude::*;

verus! {

/// Creates an entity and attaches components to it, one call after another.
pub struct EntityBuilder<'uni> {
    universe: &'uni mut Universe,
    entity: Entity,
}

impl<'uni> View for EntityBuilder<'uni> {
    type V = (UniverseModel, Entity);

    closed spec fn view(&self) -> (UniverseModel, Entity) {
        (self.universe@, self.entity)
    }
}

impl<'uni> EntityBuilder<'uni> {
    /// The entity being built stays live for as long as the builder holds the universe.
    #[verifier::type_invariant]
    closed spec fn builds_live_entity(&self) -> bool {
        self.universe@.is_valid(self.entity)
    }

    /// Creates a new entity in `universe` and starts building it.
    pub fn new(universe: &'uni mut Universe) -> (r: Self)
        requires
            old(universe)@.can_create(),
        ensures
            r@ == (old(universe)@.after_create(), old(universe)@.created()),
    {
        let entity = universe.create_entity();
        proof {
            crate::entities::universe::lemma_create_entity_validity(old(universe)@, entity);
        }
        Self { entity, universe }
    }

    /// Gives the entity `value` in `components`, replacing any component it had there.
    pub fn with_component<T: Component>(&mut self, components: &mut ComponentVecImpl<T>, value: T) -> (r: &mut Self)
        ensures
            r@ == old(self)@,
            final(self)@ == final(r)@,
            final(components).slot(old(self)@.1.index as int) == Some(value),
            forall|j: int| j != old(self)@.1.index ==> #[trigger] final(components).slot(j) == old(components).slot(j),
    {
        proof {
            use_type_invariant(&*self);
        }
        self.universe.set_component(components, self.entity, value);
        self
    }

    /// Finishes building and returns the entity.
    pub fn finish(&mut self) -> (r: Entity)
        ensures
            r == old(self)@.1,
            final(self)@ == old(self)@,
    {
        self.entity
    }
}

} // verus!
