use twinvpn_core::build_identity::{
    epoch_table, protocol_epochs, BuildIdentityError, BuildStamp, CoreBuildIdentity, Tier,
    CORE_VERSION, PROFILE, PROFILE_LITE, SOURCE_COMMIT, TARGET_TRIPLE,
};
use twinvpn_core::lite::Profile;

fn stamp() -> BuildStamp {
    BuildStamp {
        target_triple: TARGET_TRIPLE,
        source_commit: SOURCE_COMMIT,
        reason_registry_version: 2,
    }
}

fn sample() -> CoreBuildIdentity {
    CoreBuildIdentity::assemble(
        1,
        0,
        vec![0xab; 32],
        "twinvpn-crypto/snow+dalek".to_owned(),
        false,
        "core-held:mlock".to_owned(),
        "mock",
        stamp(),
        Profile::Full,
    )
    .expect("this build has a table row")
}

#[test]
fn the_current_version_has_a_table_row() {
    assert!(
        protocol_epochs(CORE_VERSION).is_some(),
        "core_version {CORE_VERSION} has no row"
    );
}

#[test]
fn the_epoch_range_is_not_a_function_of_the_core_version() {
    assert_eq!(protocol_epochs("0.2.0"), None);
    assert_eq!(protocol_epochs("99.99.99"), None);
}

#[test]
fn every_table_row_is_a_non_empty_range() {
    for row in epoch_table() {
        assert!(
            row.protocol_epoch_min <= row.protocol_epoch_max,
            "{} declares an empty epoch range",
            row.core_version
        );
        assert!(row.protocol_epoch_min >= 1, "epoch 0 is UNSPECIFIED");
    }
}

#[test]
fn vr2_the_abi_pair_is_omitted_from_tier_two() {
    let id = sample();
    let tier2 = id.to_wire(Tier::Aggregate);
    assert_eq!(tier2.abi_major, 0);
    assert_eq!(tier2.abi_minor, 0);

    let tier1 = id.to_wire(Tier::Bundle);
    assert_eq!(tier1.abi_major, 1);

    let tier0 = id.to_wire(Tier::LocalLedger);
    assert_eq!(tier0.abi_major, 1);
}

#[test]
fn the_profile_names_itself_rather_than_being_inferred() {
    assert!(PROFILE == "full" || PROFILE == "core-lite");
    assert_eq!(sample().profile, PROFILE);
}

#[test]
fn cb6a_custody_travels_as_a_readable_tag() {
    let id = sample();
    assert_eq!(id.sek_custody, "core-held:mlock");
    assert!(!id.hardware_backed);
}

#[test]
fn an_unstamped_commit_is_empty_not_plausible() {
    let stamped: &str = SOURCE_COMMIT;
    assert!(
        stamped.len() != 1 && stamped.len() < 64,
        "a stamped commit is either absent or a real object name"
    );
}

#[test]
fn the_transmissible_form_says_what_the_record_says() {
    let id = sample();
    let wire = id.to_wire(Tier::Bundle);
    assert_eq!(wire.reason_registry_version, id.reason_registry_version);
    assert_eq!(wire.schema_digest, id.schema_digest);
    assert_eq!(wire.core_version, "0.1.0");
    assert_eq!(
        (wire.protocol_epoch_min, wire.protocol_epoch_max),
        (1, 1)
    );
}

#[test]
fn a_version_without_a_row_cannot_be_assembled() {
    let r = CoreBuildIdentity::assemble_as(
        "0.2.0",
        1,
        0,
        Vec::new(),
        String::new(),
        false,
        String::new(),
        "mock",
        stamp(),
        Profile::Full,
    );
    assert_eq!(r, Err(BuildIdentityError::UnknownCoreVersion("0.2.0")));
}

#[test]
fn a_lite_instance_reports_the_lite_profile() {
    let lite = CoreBuildIdentity::assemble(
        1,
        0,
        Vec::new(),
        String::new(),
        false,
        String::new(),
        "mock",
        stamp(),
        Profile::CoreLite,
    )
    .expect("this build has a table row");
    assert_eq!(lite.profile, "core-lite");
    assert_eq!(lite.profile, PROFILE_LITE);
    assert_eq!(lite.to_wire(Tier::Bundle).profile, "core-lite");
}
