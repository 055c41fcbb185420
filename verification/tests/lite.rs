use twinvpn_core::lite::{
    capabilities, capabilities_of, has, profile, profile_has, profile_name, Capability, Profile,
};

#[test]
fn core_lite_never_fetches_and_never_recovers() {
    assert!(has(Capability::Fetch));
    assert!(has(Capability::Recover));
    assert_eq!(profile(), "full");
    assert!(
        !profile_has(Profile::CoreLite, Capability::Fetch),
        "core-lite MUST NOT sit on a fetch path"
    );
    assert!(
        !profile_has(Profile::CoreLite, Capability::Recover),
        "core-lite MUST NOT sit on any recovery path"
    );
    assert_eq!(capabilities_of(Profile::CoreLite).len(), 4);
}

#[test]
fn every_profile_can_parse_verify_and_render() {
    for c in [Capability::Parse, Capability::Verify, Capability::Render] {
        assert!(has(c), "{c:?} must be available in every profile");
        assert!(
            profile_has(Profile::CoreLite, c),
            "{c:?} must be available in every profile"
        );
    }
}

#[test]
fn the_data_plane_is_absent_from_the_lite_profile() {
    let has_dataplane_modules = profile() == "full";
    assert_eq!(has_dataplane_modules, has(Capability::Recover));
}

#[test]
fn the_full_profile_lists_everything() {
    assert_eq!(
        capabilities(),
        vec![
            Capability::Parse,
            Capability::Verify,
            Capability::Render,
            Capability::Bundle,
            Capability::Fetch,
            Capability::Recover,
        ]
    );
}

#[test]
fn a_profile_fetches_exactly_where_it_is_the_full_one() {
    for p in [Profile::Full, Profile::CoreLite] {
        let full = profile_name(p) == "full";
        assert_eq!(profile_has(p, Capability::Fetch), full);
        assert_eq!(profile_has(p, Capability::Recover), full);
        assert!(profile_has(p, Capability::Bundle));
    }
    assert_eq!(profile_name(Profile::CoreLite), "core-lite");
    for c in capabilities() {
        assert!(has(c));
    }
}
