//! Extension-registration core of a level-file loader.
//!
//! A host application declares, ahead of time, which component bundles
//! should be instantiated for which level-file entity identifiers and
//! which integer grid-cell values. At level-load time the spawn-time
//! consumer looks each identifier or value up and either applies the
//! registered factory or attaches a raw fallback component, then attaches
//! the fixed spatial and hierarchy components.

pub mod app;
pub mod assets;
pub mod components;
pub mod factory;
pub mod ldtk;
pub mod registry;
pub mod spawning;
