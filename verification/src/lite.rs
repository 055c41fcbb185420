//! What a build profile may do.
//!
//! A component whose availability depends on the tunnel being up may not sit on the
//! path that brings the tunnel up, so the lite profile neither fetches nor recovers.

use vstd::prelude::*;

use crate::build_identity::{PROFILE, PROFILE_LITE};

verus! {

/// What a built profile is permitted to do.
#[derive(Debug, Clone, Copy, PartialEq, Eq, PartialOrd, Ord, Hash, Structural)]
pub enum Capability {
    /// Decode a signed document.
    Parse,
    /// Verify a signature over the received octets.
    Verify,
    /// Resolve a reason code into sentences.
    Render,
    /// Assemble a diagnostic bundle.
    Bundle,
    /// Open a socket and fetch a document.
    Fetch,
    /// Bring a tunnel up, or recover one.
    Recover,
}

/// A build profile.
#[derive(Debug, Clone, Copy, PartialEq, Eq, Structural)]
pub enum Profile {
    /// Everything.
    Full,
    /// No data plane.
    CoreLite,
}

/// The profile this artifact was built as.
pub open spec fn built_profile() -> Profile {
    Profile::Full
}

/// A profile's name.
pub open spec fn name_of(profile: Profile) -> &'static str {
    match profile {
        Profile::Full => PROFILE,
        Profile::CoreLite => PROFILE_LITE,
    }
}

/// A profile's name.
#[must_use]
pub fn profile_name(profile: Profile) -> (name: &'static str)
    ensures
        name == name_of(profile),
{
    match profile {
        Profile::Full => PROFILE,
        Profile::CoreLite => PROFILE_LITE,
    }
}

/// What a profile may do, in the order it is listed.
pub open spec fn granted(profile: Profile) -> Seq<Capability> {
    match profile {
        Profile::Full => seq![
            Capability::Parse,
            Capability::Verify,
            Capability::Render,
            Capability::Bundle,
            Capability::Fetch,
            Capability::Recover,
        ],
        Profile::CoreLite => seq![
            Capability::Parse,
            Capability::Verify,
            Capability::Render,
            Capability::Bundle,
        ],
    }
}

/// What a profile may do.
#[must_use]
pub fn capabilities_of(profile: Profile) -> (set: Vec<Capability>)
    ensures
        set@ == granted(profile),
{
    let set = match profile {
        Profile::Full => vec![
            Capability::Parse,
            Capability::Verify,
            Capability::Render,
            Capability::Bundle,
            Capability::Fetch,
            Capability::Recover,
        ],
        Profile::CoreLite => vec![
            Capability::Parse,
            Capability::Verify,
            Capability::Render,
            Capability::Bundle,
        ],
    };
    assert(set@ =~= granted(profile));
    set
}

/// What the profile this artifact was built as may do.
#[must_use]
pub fn capabilities() -> (set: Vec<Capability>)
    ensures
        set@ == granted(built_profile()),
{
    capabilities_of(Profile::Full)
}

/// Whether a profile has a capability.
#[must_use]
pub fn profile_has(profile: Profile, capability: Capability) -> (b: bool)
    ensures
        b == granted(profile).contains(capability),
{
    let set = capabilities_of(profile);
    let mut i: usize = 0;
    while i < set.len()
        invariant
            i <= set@.len(),
            set@ == granted(profile),
            forall|j: int| 0 <= j < i ==> set@[j] != capability,
        decreases set@.len() - i,
    {
        if set[i] == capability {
            assert(granted(profile).contains(set@[i as int]));
            return true;
        }
        i += 1;
    }
    false
}

/// Whether this build has a capability.
#[must_use]
pub fn has(capability: Capability) -> (b: bool)
    ensures
        b == granted(built_profile()).contains(capability),
{
    profile_has(Profile::Full, capability)
}

/// The profile's name.
#[must_use]
pub fn profile() -> (name: &'static str)
    ensures
        name == name_of(built_profile()),
{
    profile_name(Profile::Full)
}

/// The lite profile never fetches and never recovers; the full one does both.
pub proof fn core_lite_never_fetches_and_never_recovers()
    ensures
        !granted(Profile::CoreLite).contains(Capability::Fetch),
        !granted(Profile::CoreLite).contains(Capability::Recover),
        granted(Profile::Full).contains(Capability::Fetch),
        granted(Profile::Full).contains(Capability::Recover),
{
    assert(granted(Profile::Full)[4] == Capability::Fetch);
    assert(granted(Profile::Full)[5] == Capability::Recover);
}

/// A profile fetches exactly where it recovers, and exactly where it is the full one, by
/// its name. Every profile parses, verifies, renders and bundles.
pub proof fn a_profile_is_what_its_name_says(profile: Profile)
    ensures
        granted(profile).contains(Capability::Fetch) <==> name_of(profile)@ == "full"@,
        granted(profile).contains(Capability::Recover) <==> name_of(profile)@ == "full"@,
        name_of(Profile::Full)@ == "full"@,
        name_of(Profile::CoreLite)@ == "core-lite"@,
        granted(profile).contains(Capability::Parse),
        granted(profile).contains(Capability::Verify),
        granted(profile).contains(Capability::Render),
        granted(profile).contains(Capability::Bundle),
{
    reveal_strlit("full");
    reveal_strlit("core-lite");
    assert("full"@.len() == 4);
    assert("core-lite"@.len() == 9);
    core_lite_never_fetches_and_never_recovers();
    every_profile_can_parse_verify_and_render(profile);
    assert(granted(profile)[3] == Capability::Bundle);
}

/// Every profile can parse, verify and render, and the lite profile does nothing
/// that the full one does not.
pub proof fn every_profile_can_parse_verify_and_render(profile: Profile)
    ensures
        granted(profile).contains(Capability::Parse),
        granted(profile).contains(Capability::Verify),
        granted(profile).contains(Capability::Render),
        forall|c: Capability|
            granted(Profile::CoreLite).contains(c) ==> #[trigger] granted(
                Profile::Full,
            ).contains(c),
{
    assert(granted(profile)[0] == Capability::Parse);
    assert(granted(profile)[1] == Capability::Verify);
    assert(granted(profile)[2] == Capability::Render);
    assert forall|c: Capability| granted(Profile::CoreLite).contains(c) implies
        #[trigger] granted(Profile::Full).contains(c) by {
        let i = choose|i: int|
            0 <= i < granted(Profile::CoreLite).len() && granted(Profile::CoreLite)[i] == c;
        assert(granted(Profile::Full)[i] == c);
    }
}

} // verus!
