//! A host-side runtime layer for isolated guest modules: name-keyed import
//! resolution, validated access to guest memory, the life cycle of an
//! execution store, and a fuel-metered cooperative scheduler.

pub mod engine;
pub mod fuel;
pub mod guest;
pub mod imports;
pub mod isolation;
pub mod lifecycle;
pub mod linker;
pub mod memory;
pub mod module;
pub mod signature;
pub mod store;
pub mod text;
