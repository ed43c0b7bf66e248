//! Privileged core of a small kernel: the physical frame allocator, and
//! the registry of processes and threads with the interrupt bridge and the
//! system-call dispatcher that work on it.
//!
//! The functions of this crate are verified against their contracts. The
//! contracts speak of mathematical models: `frame_model` for the frame
//! allocator, `registry_model`, `syscall_model` and `dispatch_model` for the
//! registry. `frame_laws` and `registry_laws` state what holds of the models
//! for every state and every sequence of operations. The one call out of the
//! crate, into the serializer of `postcard`, is trusted; it stands in `wire`.

pub mod bitmap;
pub mod dispatch_model;
pub mod frame_laws;
pub mod frame_model;
pub mod handlers;
pub mod memory_map;
pub mod pmm;
pub mod registry;
pub mod registry_laws;
pub mod registry_model;
pub mod syscall_model;
pub mod teardown;
pub mod types;
pub mod userland;
pub mod wire;
