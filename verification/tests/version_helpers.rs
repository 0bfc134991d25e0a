use bounty_escrow::grainlify::{ContractError, GrainlifyContract};
use bounty_escrow::types::Address;

fn initialized_core() -> GrainlifyContract {
    let mut c = GrainlifyContract::new();
    c.init_admin(Address { id: 1 }).unwrap();
    c
}

fn semver_text_of(c: &GrainlifyContract) -> String {
    String::from_utf8(c.get_version_semver_string()).unwrap()
}

#[test]
fn get_version_returns_zero_before_init() {
    let c = GrainlifyContract::new();
    assert_eq!(c.get_version(), 0);
}

#[test]
fn get_version_returns_initial_version_after_init() {
    let c = initialized_core();
    assert_eq!(c.get_version(), 2);
}

#[test]
fn get_version_reflects_set_version() {
    let mut c = initialized_core();
    c.set_version(10_100).unwrap();
    assert_eq!(c.get_version(), 10_100);
}

#[test]
fn numeric_encoded_promotes_legacy_1() {
    let mut c = initialized_core();
    c.set_version(1).unwrap();
    assert_eq!(c.get_version_numeric_encoded(), 10_000);
}

#[test]
fn numeric_encoded_promotes_legacy_2() {
    let c = initialized_core();
    assert_eq!(c.get_version_numeric_encoded(), 20_000);
}

#[test]
fn numeric_encoded_passthrough_for_encoded_value() {
    let mut c = initialized_core();
    c.set_version(10_305).unwrap();
    assert_eq!(c.get_version_numeric_encoded(), 10_305);
}

#[test]
fn numeric_encoded_zero_stays_zero() {
    let c = GrainlifyContract::new();
    assert_eq!(c.get_version_numeric_encoded(), 0);
}

#[test]
fn numeric_encoded_boundary_9999_is_legacy() {
    let mut c = initialized_core();
    c.set_version(9_999).unwrap();
    assert_eq!(c.get_version_numeric_encoded(), 9_999u32.saturating_mul(10_000));
}

#[test]
fn numeric_encoded_boundary_10000_passthrough() {
    let mut c = initialized_core();
    c.set_version(10_000).unwrap();
    assert_eq!(c.get_version_numeric_encoded(), 10_000);
}

#[test]
fn semver_string_zero_is_0_0_0() {
    let c = GrainlifyContract::new();
    assert_eq!(semver_text_of(&c), "0.0.0");
}

#[test]
fn semver_string_legacy_1_is_1_0_0() {
    let mut c = initialized_core();
    c.set_version(1).unwrap();
    assert_eq!(semver_text_of(&c), "1.0.0");
}

#[test]
fn semver_string_encoded_10000_is_1_0_0() {
    let mut c = initialized_core();
    c.set_version(10_000).unwrap();
    assert_eq!(semver_text_of(&c), "1.0.0");
}

#[test]
fn semver_string_encoded_10100_is_1_1_0() {
    let mut c = initialized_core();
    c.set_version(10_100).unwrap();
    assert_eq!(semver_text_of(&c), "1.1.0");
}

#[test]
fn semver_string_encoded_10001_is_1_0_1() {
    let mut c = initialized_core();
    c.set_version(10_001).unwrap();
    assert_eq!(semver_text_of(&c), "1.0.1");
}

#[test]
fn semver_string_default_init_is_2_0_0() {
    let c = initialized_core();
    assert_eq!(semver_text_of(&c), "2.0.0");
}

#[test]
fn semver_string_arbitrary_encoded_2_3_5() {
    let mut c = initialized_core();
    c.set_version(20_305).unwrap();
    assert_eq!(semver_text_of(&c), "2.3.5");
}

#[test]
fn semver_string_large_components() {
    let mut c = initialized_core();
    c.set_version(101_099).unwrap();
    assert_eq!(semver_text_of(&c), "10.10.99");
}

#[test]
fn require_min_version_exact_match_passes() {
    let c = initialized_core();
    assert_eq!(c.require_min_version(20_000), Ok(()));
}

#[test]
fn require_min_version_lower_min_passes() {
    let c = initialized_core();
    assert_eq!(c.require_min_version(10_000), Ok(()));
}

#[test]
fn require_min_version_zero_min_passes() {
    let c = initialized_core();
    assert_eq!(c.require_min_version(0), Ok(()));
}

#[test]
fn require_min_version_too_low_panics() {
    let c = initialized_core();
    assert_eq!(c.require_min_version(30_000), Err(ContractError::VersionTooLow));
}

#[test]
fn require_min_version_uninitialized_panics() {
    let c = GrainlifyContract::new();
    assert_eq!(c.require_min_version(10_000), Err(ContractError::NotInitialized));
}

#[test]
fn require_min_version_passes_after_upgrade() {
    let mut c = initialized_core();
    c.set_version(30_000).unwrap();
    assert_eq!(c.require_min_version(30_000), Ok(()));
    assert_eq!(c.require_min_version(20_000), Ok(()));
    assert_eq!(c.require_min_version(10_000), Ok(()));
}

#[test]
fn require_min_version_patch_level_too_low() {
    let c = initialized_core();
    assert_eq!(c.require_min_version(20_001), Err(ContractError::VersionTooLow));
}

#[test]
fn require_min_version_minor_level_too_low() {
    let c = initialized_core();
    assert_eq!(c.require_min_version(20_100), Err(ContractError::VersionTooLow));
}

#[test]
fn semver_string_consistent_with_numeric_encoded() {
    let cases: &[(u32, &str)] = &[
        (0, "0.0.0"),
        (10_000, "1.0.0"),
        (10_001, "1.0.1"),
        (10_100, "1.1.0"),
        (20_000, "2.0.0"),
        (20_305, "2.3.5"),
        (30_099, "3.0.99"),
    ];
    for &(encoded, expected) in cases {
        let mut c = initialized_core();
        c.set_version(encoded).unwrap();
        assert_eq!(c.get_version_numeric_encoded(), encoded, "numeric_encoded mismatch for {encoded}");
        assert_eq!(semver_text_of(&c), expected, "semver_string mismatch for encoded={encoded}");
    }
}

#[test]
fn init_twice_is_refused() {
    let mut c = initialized_core();
    assert_eq!(c.init(Address { id: 9 }), Err(ContractError::AlreadyInitialized));
    assert_eq!(c.admin, Some(Address { id: 1 }));
}

#[test]
fn set_version_and_upgrade_need_an_admin() {
    let mut c = GrainlifyContract::new();
    assert_eq!(c.set_version(5), Err(ContractError::NotInitialized));
    assert!(c.upgrade([7u8; 32]).is_err());
    let mut c = initialized_core();
    assert_eq!(c.set_version(5), Ok(Address { id: 1 }));
    let up = c.upgrade([7u8; 32]).unwrap();
    assert_eq!(up.authorizer, Address { id: 1 });
    assert_eq!(up.wasm_hash, [7u8; 32]);
}
