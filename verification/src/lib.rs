//! A host-side engine for running deterministic bytecode guest modules.
//!
//! The engine loads a compiled guest module, executes its exported entry
//! points from a guaranteed-clean starting state, and mediates every
//! guest/host interaction through a narrow, checked boundary: a bump and
//! free-list allocator over guest linear memory, a typed value-marshaling
//! convention, a snapshot/restore mechanism, and a nested sandbox level
//! that lets guest code load and drive further untrusted modules.

pub mod allocator;
pub mod context;
pub mod decode;
pub mod hashing;
pub mod memory;
pub mod module_info;
pub mod offchain;
pub mod registry;
pub mod runtime;
pub mod sandbox;
pub mod sealed;
pub mod snapshot;
pub mod values;
pub mod wire;
