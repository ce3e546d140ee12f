//! Syscall results written into an Observer's saved register context.
//!
//! EL0 exception entry saves the full register context into the Observer's
//! `RegisterState`; dispatch reads its arguments from there and writes its
//! results back before the Observer resumes. IPC errors are signalled by
//! the carry flag of the saved PSTATE with the error code in x0; typed
//! operations return a value in x0, negative on error. IPC delivery puts
//! the message in x0–x7.

use crate::frame::arch::register_state::RegisterState;
use vstd::prelude::*;

verus! {

/// Carry flag (C, bit 29) of the saved PSTATE: set = IPC error.
pub const SPSR_CARRY_BIT: u64 = 0x2000_0000;

/// `after` is `before` except, at most, for its general-purpose registers
/// and its PSTATE.
pub open spec fn only_gprs_pstate_changed(before: RegisterState, after: RegisterState) -> bool {
    (RegisterState { gprs: before.gprs, pstate: before.pstate, ..after }) == before
}

/// Report an IPC error: set the carry flag (other PSTATE bits kept) and put
/// the error code in x0.
pub fn write_ipc_error(rs: &mut RegisterState, error_code: u64)
    ensures
        final(rs).pstate == old(rs).pstate | SPSR_CARRY_BIT,
        final(rs).gprs@ == old(rs).gprs@.update(0, error_code),
        only_gprs_pstate_changed(*old(rs), *final(rs)),
{
    rs.pstate = rs.pstate | SPSR_CARRY_BIT;
    rs.gprs[0] = error_code;
}

/// Report IPC success: clear the carry flag, keeping the other PSTATE bits.
pub fn clear_ipc_carry(rs: &mut RegisterState)
    ensures
        final(rs).pstate == old(rs).pstate & !SPSR_CARRY_BIT,
        final(rs).gprs == old(rs).gprs,
        only_gprs_pstate_changed(*old(rs), *final(rs)),
{
    rs.pstate = rs.pstate & !SPSR_CARRY_BIT;
}

/// Return a typed operation's result in x0 (bit 63 set = error code).
pub fn write_typed_result(rs: &mut RegisterState, value: u64)
    ensures
        final(rs).gprs@ == old(rs).gprs@.update(0, value),
        final(rs).pstate == old(rs).pstate,
        only_gprs_pstate_changed(*old(rs), *final(rs)),
{
    rs.gprs[0] = value;
}

/// Return the rest of a read-registers result: SP in x1, the target's x0
/// in x2 and its PSTATE in x3 (x0 holds the PC).
pub fn write_read_registers_result(rs: &mut RegisterState, sp: u64, x0: u64, pstate: u64)
    ensures
        final(rs).gprs@ == old(rs).gprs@.update(1, sp).update(2, x0).update(3, pstate),
        final(rs).pstate == old(rs).pstate,
        only_gprs_pstate_changed(*old(rs), *final(rs)),
{
    rs.gprs[1] = sp;
    rs.gprs[2] = x0;
    rs.gprs[3] = pstate;
}

/// Deliver a message: data in x0–x3, label in x4, badge in x5, and the
/// transferred user and reply capability slots in x6 and x7.
pub fn write_message_to_registers(
    rs: &mut RegisterState,
    data: &[u64; 4],
    label: u64,
    badge: u64,
    user_cap_slot: u64,
    reply_cap_slot: u64,
)
    ensures
        final(rs).gprs@ == old(rs).gprs@.update(0, data@[0]).update(1, data@[1]).update(
            2,
            data@[2],
        ).update(3, data@[3]).update(4, label).update(5, badge).update(6, user_cap_slot).update(
            7,
            reply_cap_slot,
        ),
        final(rs).pstate == old(rs).pstate,
        only_gprs_pstate_changed(*old(rs), *final(rs)),
{
    rs.gprs[0] = data[0];
    rs.gprs[1] = data[1];
    rs.gprs[2] = data[2];
    rs.gprs[3] = data[3];
    rs.gprs[4] = label;
    rs.gprs[5] = badge;
    rs.gprs[6] = user_cap_slot;
    rs.gprs[7] = reply_cap_slot;
}

/// Deliver only a message's metadata (x4–x7), leaving x0–x3 alone.
pub fn write_metadata_to_registers(
    rs: &mut RegisterState,
    label: u64,
    badge: u64,
    user_cap_slot: u64,
    reply_cap_slot: u64,
)
    ensures
        final(rs).gprs@ == old(rs).gprs@.update(4, label).update(5, badge).update(
            6,
            user_cap_slot,
        ).update(7, reply_cap_slot),
        final(rs).pstate == old(rs).pstate,
        only_gprs_pstate_changed(*old(rs), *final(rs)),
{
    rs.gprs[4] = label;
    rs.gprs[5] = badge;
    rs.gprs[6] = user_cap_slot;
    rs.gprs[7] = reply_cap_slot;
}

/// Setting the carry for an error and clearing it again restores a PSTATE
/// whose carry was clear.
pub proof fn law_error_then_success_restores_pstate(pstate: u64)
    by (bit_vector)
    requires
        pstate & SPSR_CARRY_BIT == 0,
    ensures
        (pstate | SPSR_CARRY_BIT) & SPSR_CARRY_BIT != 0,
        ((pstate | SPSR_CARRY_BIT) & !SPSR_CARRY_BIT) == pstate,
{
}

} // verus!
