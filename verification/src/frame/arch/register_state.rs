//! Saved register context for Observer context switches.
//!
//! Distinct from [`super::exception::TrapFrame`], which captures
//! exception-specific registers (ESR, FAR) that are not part of the
//! Observer's persistent identity. EL0 exception entry saves directly into
//! RegisterState; TrapFrame is used only for EL1h exceptions.

use vstd::prelude::*;

verus! {

/// Full saved register context for an Observer (AArch64).
///
/// Lives in the consumed Space's structural backing. The Observer metadata
/// struct holds a handle to it.
pub struct RegisterState {
    /// General-purpose registers x0–x30.
    pub gprs: [u64; 31],
    /// User stack pointer (SP_EL0).
    pub sp: u64,
    /// Program counter (ELR_EL1 — resume address).
    pub pc: u64,
    /// Saved processor state (SPSR_EL1).
    pub pstate: u64,
    /// Thread-local storage (TPIDR_EL0).
    pub tpidr: u64,
    /// FP/SIMD registers v0–v31 (128-bit each).
    pub fp_regs: [u128; 32],
    /// Floating-point control register.
    pub fpcr: u64,
    /// Floating-point status register.
    pub fpsr: u64,
}

// ── Byte offsets for assembly access ─────────────────────────────
//
// EL0 exception entry and the context restore path save/load
// RegisterState fields at these fixed positions.

/// Byte offset of `gprs` within `RegisterState`.
pub const RS_GPRS: usize = 0;
/// Byte offset of `sp` within `RegisterState`.
pub const RS_SP: usize = 248;
/// Byte offset of `pc` within `RegisterState`.
pub const RS_PC: usize = 256;
/// Byte offset of `pstate` within `RegisterState`.
pub const RS_PSTATE: usize = 264;
/// Byte offset of `tpidr` within `RegisterState`.
pub const RS_TPIDR: usize = 272;
/// Byte offset of `fp_regs` within `RegisterState`.
pub const RS_FP_REGS: usize = 288;
/// Byte offset of `fpcr` within `RegisterState`.
pub const RS_FPCR: usize = 800;
/// Byte offset of `fpsr` within `RegisterState`.
pub const RS_FPSR: usize = 808;

} // verus!
