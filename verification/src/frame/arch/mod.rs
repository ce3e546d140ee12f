//! AArch64 architecture support.

pub mod exception;
pub mod mmu;
pub mod page_table;
pub mod platform;
pub mod register_state;
pub mod speculation;
