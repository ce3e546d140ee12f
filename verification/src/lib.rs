//! Microkernel library for ARM64: page-table building blocks, physical memory
//! and VA management, kernel object state machines, and the slab store that
//! backs the per-type object arenas.

pub mod arena;
pub mod capability;
pub mod field;
pub mod frame;
pub mod space_manager;
pub mod space;
pub mod kernel_state;
pub mod observer;
pub mod pulsar;
pub mod scheduler;
pub mod time;
