//! The first Zenit entity component system, with one component vector per registered
//! component type.

use vstd::prelude::*;

pub mod component_vec;

pub use component_vec::ComponentVec;

verus! {

/// An entity handle. It's very cheap to copy (2x32-bit values)
#[derive(Debug, Clone, Copy, PartialEq, Eq, Structural, Hash)]
pub struct Entity {
    pub index: u32,
    pub generation: u32,
}

/// Marker trait for components.
pub trait Component {}

/// Marks the component types that a universe was created with.
pub trait RegisteredComponent: Component {}

} // verus!
