//! Runtime resolution of native graphics-driver entry points.
//!
//! The crate models a three-tier handle hierarchy (library, instance,
//! device). Each tier can resolve function pointers scoped to itself and
//! may own, and therefore be responsible for destroying, the native object
//! it wraps. Native handles and function pointers are carried as plain
//! addresses; the operating-system calls that open modules, look up
//! symbols and invoke resolvers are performed by the embedding program,
//! which drives the decision logic defined here.

pub mod loader;
pub mod log;
pub mod names;
