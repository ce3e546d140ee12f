//! Exception state and syndrome decoding for AArch64.
//!
//! The vector table saves the interrupted context into a [`TrapFrame`] for
//! EL1h exceptions; EL0 exceptions save directly into the Observer's
//! RegisterState. The decoding helpers below turn the raw syndrome and
//! vector source into the values that the dispatcher and the fatal-fault
//! report use.

use vstd::prelude::*;

verus! {

/// Saved CPU state at the point of an exception.
///
/// 816 bytes, 16-byte aligned. Includes full FP/SIMD state so that
/// interrupts cannot corrupt the interrupted code's float registers.
pub struct TrapFrame {
    /// General-purpose registers x0–x30.
    pub gprs: [u64; 31],
    /// Exception Link Register — address to return to.
    pub elr: u64,
    /// Saved Processor State Register — PSTATE before the exception.
    pub spsr: u64,
    /// Exception Syndrome Register — exception class and details.
    pub esr: u64,
    /// Fault Address Register — address that caused a data/instruction abort.
    pub far: u64,
    /// Padding for 16-byte alignment of the FP register block.
    _pad: u64,
    /// FP/SIMD registers q0–q31 (128-bit each).
    pub fp_regs: [u128; 32],
    /// Floating-point control register.
    pub fpcr: u64,
    /// Floating-point status register.
    pub fpsr: u64,
}

/// Exception Class field of ESR_EL1 (bits \[31:26\]).
pub open spec fn exception_class(esr: u64) -> u64 {
    (esr >> 26u64) & 0x3Fu64
}

/// Extract the Exception Class from ESR_EL1 (bits \[31:26\]).
pub fn esr_ec(esr: u64) -> (ec: u64)
    ensures
        ec == exception_class(esr),
        ec < 64,
{
    assert((esr >> 26u64) & 0x3Fu64 < 64u64) by (bit_vector);
    (esr >> 26) & 0x3F
}

/// Extract the SVC immediate from ESR_EL1 (bits \[15:0\], valid when EC = 0x15).
pub fn esr_svc_imm(esr: u64) -> (imm: u16)
    ensures
        imm as u64 == esr & 0xFFFFu64,
{
    assert(esr & 0xFFFFu64 <= 0xFFFFu64) by (bit_vector);
    (esr & 0xFFFF) as u16
}

/// Human-readable name of an ESR exception class.
pub open spec fn ec_label(ec: u64) -> Seq<char> {
    if ec == 0x00 {
        "Unknown"@
    } else if ec == 0x01 {
        "WFI/WFE trap"@
    } else if ec == 0x0E {
        "Illegal execution state"@
    } else if ec == 0x15 {
        "SVC (AArch64)"@
    } else if ec == 0x18 {
        "MSR/MRS trap"@
    } else if ec == 0x20 {
        "Instruction abort (lower EL)"@
    } else if ec == 0x21 {
        "Instruction abort (same EL)"@
    } else if ec == 0x22 {
        "PC alignment fault"@
    } else if ec == 0x24 {
        "Data abort (lower EL)"@
    } else if ec == 0x25 {
        "Data abort (same EL)"@
    } else if ec == 0x26 {
        "SP alignment fault"@
    } else if ec == 0x2C {
        "FP/SIMD exception"@
    } else if ec == 0x2F {
        "SError"@
    } else if ec == 0x30 {
        "Breakpoint (lower EL)"@
    } else if ec == 0x31 {
        "Breakpoint (same EL)"@
    } else if ec == 0x32 {
        "Software step (lower EL)"@
    } else if ec == 0x33 {
        "Software step (same EL)"@
    } else if ec == 0x34 {
        "Watchpoint (lower EL)"@
    } else if ec == 0x35 {
        "Watchpoint (same EL)"@
    } else if ec == 0x3C {
        "BRK (AArch64)"@
    } else {
        "Reserved"@
    }
}

/// Decode an ESR exception class into its architectural name.
pub fn ec_name(ec: u64) -> (name: &'static str)
    ensures
        name@ == ec_label(ec),
{
    match ec {
        0x00 => "Unknown",
        0x01 => "WFI/WFE trap",
        0x0E => "Illegal execution state",
        0x15 => "SVC (AArch64)",
        0x18 => "MSR/MRS trap",
        0x20 => "Instruction abort (lower EL)",
        0x21 => "Instruction abort (same EL)",
        0x22 => "PC alignment fault",
        0x24 => "Data abort (lower EL)",
        0x25 => "Data abort (same EL)",
        0x26 => "SP alignment fault",
        0x2C => "FP/SIMD exception",
        0x2F => "SError",
        0x30 => "Breakpoint (lower EL)",
        0x31 => "Breakpoint (same EL)",
        0x32 => "Software step (lower EL)",
        0x33 => "Software step (same EL)",
        0x34 => "Watchpoint (lower EL)",
        0x35 => "Watchpoint (same EL)",
        0x3C => "BRK (AArch64)",
        _ => "Reserved",
    }
}

/// Name of one of the 16 exception vector entries.
pub open spec fn source_label(source: u64) -> Seq<char> {
    if source == 0 {
        "EL1t Sync"@
    } else if source == 1 {
        "EL1t IRQ"@
    } else if source == 2 {
        "EL1t FIQ"@
    } else if source == 3 {
        "EL1t SError"@
    } else if source == 4 {
        "EL1h Sync"@
    } else if source == 5 {
        "EL1h IRQ"@
    } else if source == 6 {
        "EL1h FIQ"@
    } else if source == 7 {
        "EL1h SError"@
    } else if source == 8 {
        "EL0/64 Sync"@
    } else if source == 9 {
        "EL0/64 IRQ"@
    } else if source == 10 {
        "EL0/64 FIQ"@
    } else if source == 11 {
        "EL0/64 SError"@
    } else if source == 12 {
        "EL0/32 Sync"@
    } else if source == 13 {
        "EL0/32 IRQ"@
    } else if source == 14 {
        "EL0/32 FIQ"@
    } else if source == 15 {
        "EL0/32 SError"@
    } else {
        "Unknown"@
    }
}

/// Decode a vector source number (0–15) into the vector entry's name.
pub fn source_name(source: u64) -> (name: &'static str)
    ensures
        name@ == source_label(source),
{
    match source {
        0 => "EL1t Sync",
        1 => "EL1t IRQ",
        2 => "EL1t FIQ",
        3 => "EL1t SError",
        4 => "EL1h Sync",
        5 => "EL1h IRQ",
        6 => "EL1h FIQ",
        7 => "EL1h SError",
        8 => "EL0/64 Sync",
        9 => "EL0/64 IRQ",
        10 => "EL0/64 FIQ",
        11 => "EL0/64 SError",
        12 => "EL0/32 Sync",
        13 => "EL0/32 IRQ",
        14 => "EL0/32 FIQ",
        15 => "EL0/32 SError",
        _ => "Unknown",
    }
}

// ── EL0 synchronous exception dispatch decisions ───────────────────

/// What the kernel does with a synchronous exception taken from EL0.
#[derive(Clone, Copy, Debug, PartialEq, Eq, Structural)]
pub enum El0SyncAction {
    /// FP/SIMD access trapped by the lazy-FP setting (EC 0x07): load the
    /// Observer's FP state and resume it.
    LazyFpRestore,
    /// `SVC #0`: a typed kernel operation whose code is in the registers.
    TypedOperation,
    /// `SVC #imm` with `imm != 0`: the IPC operation numbered `imm`.
    Ipc(u16),
    /// `BRK #imm` with `imm` in `0x42..=0x4B`: one of the kernel's
    /// self-test and diagnostic hooks.
    Diagnostic(u16),
    /// Anything else: delivered to the Observer's fault handler.
    Fault,
}

/// Kind of access that caused an EL0 abort.
#[derive(Clone, Copy, Debug, PartialEq, Eq, Structural)]
pub enum FaultAccess {
    Execute,
    Write,
    Read,
}

/// Decision for a synchronous exception from EL0, as a function of its
/// syndrome.
pub open spec fn el0_sync_action(esr: u64) -> El0SyncAction {
    let ec = exception_class(esr);
    let imm = (esr & 0xFFFFu64) as u16;
    if ec == 0x07 {
        El0SyncAction::LazyFpRestore
    } else if ec == 0x15 {
        if imm == 0 {
            El0SyncAction::TypedOperation
        } else {
            El0SyncAction::Ipc(imm)
        }
    } else if ec == 0x3C && 0x42 <= imm <= 0x4B {
        El0SyncAction::Diagnostic(imm)
    } else {
        El0SyncAction::Fault
    }
}

/// Classify a synchronous exception from EL0: lazy FP restore, typed
/// operation, IPC, diagnostic breakpoint, or fault delivery.
pub fn classify_el0_sync(esr: u64) -> (action: El0SyncAction)
    ensures
        action == el0_sync_action(esr),
{
    let ec = esr_ec(esr);
    match ec {
        0x07 => El0SyncAction::LazyFpRestore,
        0x15 => {
            let imm = esr_svc_imm(esr);
            if imm == 0 {
                El0SyncAction::TypedOperation
            } else {
                El0SyncAction::Ipc(imm)
            }
        },
        0x3C => {
            let imm = esr_svc_imm(esr);
            if imm >= 0x42 && imm <= 0x4B {
                El0SyncAction::Diagnostic(imm)
            } else {
                El0SyncAction::Fault
            }
        },
        _ => El0SyncAction::Fault,
    }
}

/// Access kind of an EL0 abort that may be a Space mapping fault: an
/// instruction abort (EC 0x20) is an execute, a data abort (EC 0x24) is a
/// write when ISS.WnR (bit 6) is set and a read otherwise.
pub open spec fn abort_access(esr: u64) -> Option<FaultAccess> {
    let ec = exception_class(esr);
    if ec == 0x20 {
        Some(FaultAccess::Execute)
    } else if ec == 0x24 {
        if (esr >> 6u64) & 1u64 == 1 {
            Some(FaultAccess::Write)
        } else {
            Some(FaultAccess::Read)
        }
    } else {
        None
    }
}

/// Classify the access of an EL0 abort. `None` for exceptions that are
/// not instruction or data aborts from EL0; those are delivered as
/// hardware exceptions.
pub fn vm_fault_access(esr: u64) -> (access: Option<FaultAccess>)
    ensures
        access == abort_access(esr),
{
    let ec = esr_ec(esr);
    if ec == 0x20 {
        Some(FaultAccess::Execute)
    } else if ec == 0x24 {
        if (esr >> 6) & 1 == 1 {
            Some(FaultAccess::Write)
        } else {
            Some(FaultAccess::Read)
        }
    } else {
        None
    }
}

} // verus!
