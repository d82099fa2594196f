//! The Zenit entity component system.
//!
//! A [`Universe`] hands out [`Entity`] handles made of a slot index and a generation number.
//! Components of one type are kept in a [`ComponentVecImpl`], indexed by the entity's slot.

use vstd::prelude::*;

pub mod component_vec;
pub mod universe;
pub mod accessor;
pub mod builder;

pub use component_vec::{cleared, slot_of, trimmed_len, with_slot, ComponentVec, ComponentVecImpl};
pub use universe::{Universe, UniverseModel};
pub use accessor::{EntityAccessor, EntityAccessorMut};
pub use builder::EntityBuilder;

verus! {

/// An entity handle. It's very cheap to copy (2x32-bit values)
#[derive(Debug, Clone, Copy, PartialEq, Eq, Structural, Hash)]
pub struct Entity {
    /// The entity's index within the universe entity set.
    pub index: u32,
    /// The entity's generation number. It's unique across the entire universe;
    /// a handle issued by a universe never carries zero.
    pub generation: u32,
}

/// Marker trait for components.
pub trait Component {}

} // verus!
