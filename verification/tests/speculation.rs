use kernel::frame::arch::speculation::{parse_features};
#[test]
fn parse_zero_registers_detects_nothing() {
    let f = parse_features(0, 0, 0);

    assert!(!f.csv2, "CSV2 must be absent with zeroed registers");
    assert!(!f.csv3, "CSV3 must be absent with zeroed registers");
    assert!(!f.sb, "SB must be absent with zeroed registers");
    assert!(!f.e0pd, "E0PD must be absent with zeroed registers");
}

#[test]
fn parse_csv2_at_bits_59_56() {
    let pfr0 = 0x1u64 << 56;
    let f = parse_features(pfr0, 0, 0);

    assert!(f.csv2, "CSV2=1 at PFR0[59:56] must be detected");
    assert!(!f.csv3, "CSV3 must not be set by CSV2-only PFR0");
}

#[test]
fn parse_csv2_level_2_detected() {
    let pfr0 = 0x2u64 << 56;
    let f = parse_features(pfr0, 0, 0);

    assert!(
        f.csv2,
        "CSV2=2 (SCXTNUM support) must still report csv2=true"
    );
}

#[test]
fn parse_csv3_at_bits_63_60() {
    let pfr0 = 0x1u64 << 60;
    let f = parse_features(pfr0, 0, 0);

    assert!(f.csv3, "CSV3=1 at PFR0[63:60] must be detected");
}

#[test]
fn parse_sb_at_isar1_bits_39_36() {
    let isar1 = 0x1u64 << 36;
    let f = parse_features(0, isar1, 0);

    assert!(f.sb, "SB=1 at ISAR1[39:36] must be detected");
}

#[test]
fn parse_e0pd_at_mmfr2_bits_63_60() {
    let mmfr2 = 0x1u64 << 60;
    let f = parse_features(0, 0, mmfr2);

    assert!(f.e0pd, "E0PD=1 at MMFR2[63:60] must be detected");
}

#[test]
fn parse_all_features_present() {
    let pfr0 = (0x1u64 << 56) | (0x1u64 << 60);
    let isar1 = 0x1u64 << 36;
    let mmfr2 = 0x1u64 << 60;
    let f = parse_features(pfr0, isar1, mmfr2);

    assert!(f.csv2);
    assert!(f.csv3);
    assert!(f.sb);
    assert!(f.e0pd);
}

#[test]
fn parse_unrelated_bits_do_not_trigger_false_positive() {
    // Zero out CSV2 [59:56] and CSV3 [63:60] nibbles, set everything else.
    let pfr0 = 0x00FF_FFFF_FFFF_FFFFu64;
    let f = parse_features(pfr0, 0, 0);

    assert!(!f.csv2, "bits outside [59:56] must not trigger CSV2");
    assert!(!f.csv3, "bits outside [63:60] must not trigger CSV3");
}

