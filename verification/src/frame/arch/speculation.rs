//! Speculative execution mitigation — feature detection.
//!
//! | Vulnerability          | Hardware feature       | Software fallback          |
//! |------------------------|------------------------|----------------------------|
//! | Meltdown               | E0PD (TCR_EL1 bit)     | KPTI (separate page tables)|
//! | Spectre v1 (bounds)    | None — always software | SB after bounds checks     |
//! | Spectre v2 (branch)    | CSV2 / CSV3            | Branch predictor flush     |
//! | Spectre-BHB            | CSV3 / CLRBHB          | BHB clearing loop          |
//!
//! A porter targeting different ARM64 hardware reads the ID registers at
//! boot, passes them to [`parse_features`], and enables the software
//! fallback for each feature that is absent.

use vstd::prelude::*;

verus! {

/// Hardware speculation mitigation features detected from ID registers.
///
/// All fields default to `false` (feature absent).
#[derive(Clone, Copy, Debug)]
pub struct SpeculationFeatures {
    /// FEAT_CSV2 — branch predictor entries are tagged per-context.
    pub csv2: bool,
    /// FEAT_CSV3 — speculative reads from another context cannot be
    /// disclosed by any side channel.
    pub csv3: bool,
    /// FEAT_SB — Speculation Barrier instruction is functional (not NOP).
    pub sb: bool,
    /// FEAT_E0PD — EL0 speculative accesses to EL1 pages return a fixed
    /// value (hardware Meltdown mitigation).
    pub e0pd: bool,
}

/// The 4-bit ID register field starting at bit `lsb` is at least 1
/// (feature implemented).
pub open spec fn field_present(reg: u64, lsb: u64) -> bool {
    (reg >> lsb) & 0xFu64 >= 1
}

/// Parse speculation features from raw ID register values.
///
/// - `ID_AA64PFR0_EL1[59:56]` → CSV2 (≥1 = implemented)
/// - `ID_AA64PFR0_EL1[63:60]` → CSV3 (≥1 = implemented)
/// - `ID_AA64ISAR1_EL1[39:36]` → SB (≥1 = implemented)
/// - `ID_AA64MMFR2_EL1[63:60]` → E0PD (≥1 = implemented)
pub fn parse_features(pfr0: u64, isar1: u64, mmfr2: u64) -> (f: SpeculationFeatures)
    ensures
        f.csv2 == field_present(pfr0, 56),
        f.csv3 == field_present(pfr0, 60),
        f.sb == field_present(isar1, 36),
        f.e0pd == field_present(mmfr2, 60),
{
    SpeculationFeatures {
        csv2: ((pfr0 >> 56) & 0xF) >= 1,
        csv3: ((pfr0 >> 60) & 0xF) >= 1,
        sb: ((isar1 >> 36) & 0xF) >= 1,
        e0pd: ((mmfr2 >> 60) & 0xF) >= 1,
    }
}

/// A feature is reported exactly when its own 4-bit field is non-zero:
/// bits outside the field never turn it on, and clearing the field always
/// turns it off.
pub proof fn law_feature_depends_only_on_its_field(reg: u64, lsb: u64)
    requires
        lsb <= 60,
    ensures
        field_present(reg, lsb) == ((reg & (0xFu64 << lsb)) != 0u64),
{
    assert(((reg >> lsb) & 0xFu64 >= 1) == ((reg & (0xFu64 << lsb)) != 0u64)) by (bit_vector)
        requires
            lsb <= 60u64,
    ;
}

} // verus!
