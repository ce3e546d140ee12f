use kernel::frame::arch::register_state::{RS_FP_REGS, RS_GPRS};
#[test]
fn register_state_gpr_stride() {
    // Assembly uses immediate offsets for individual GPRs (e.g., x19 at
    // offset 152 = 19 * 8). Verify the array element stride is 8 bytes.
    assert_eq!(
        core::mem::size_of::<u64>(),
        8,
        "GPR stride must be 8 bytes for assembly offset calculations"
    );
    // Verify specific GPR offsets used in the trampoline (x19 at 152).
    assert_eq!(RS_GPRS + 19 * 8, 152, "x19 must be at offset 152");
}

#[test]
fn register_state_fp_reg_stride() {
    // Assembly uses stp/ldp q-register pairs at 32-byte stride.
    assert_eq!(
        core::mem::size_of::<u128>(),
        16,
        "FP register stride must be 16 bytes"
    );
    // Verify q0 at offset 288, q31 at 288 + 31*16 = 784.
    assert_eq!(RS_FP_REGS + 31 * 16, 784, "q31 must be at offset 784");
}
