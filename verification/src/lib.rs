//! Verified core of the Zenit engine: the entity component system, texture data conversion,
//! frame profiling state and the small layout and scheduling decisions around them.

pub mod entities;
pub mod ecs;
pub mod assets;
pub mod graphics;
pub mod engine;
pub mod profiler;
pub mod crash;
pub mod cli;
pub mod platform;
pub mod devui;
