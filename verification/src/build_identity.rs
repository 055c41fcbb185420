//! What this build is: its versions, and which protocol epochs it speaks.
//!
//! Which epochs a release speaks is a table and never an inference: the core, ABI
//! and protocol versions advance independently, so any function from one to another
//! is wrong the first time they diverge.

use vstd::prelude::*;

use crate::lite::{name_of, profile_name, Profile};
use crate::octets;
use crate::types::same_text;

verus! {

/// Which protocol epochs a named core release speaks.
#[derive(Debug, Clone, Copy, PartialEq, Eq)]
pub struct EpochRow {
    /// The release this row describes.
    pub core_version: &'static str,
    /// The lowest epoch it speaks.
    pub protocol_epoch_min: u32,
    /// The highest.
    pub protocol_epoch_max: u32,
}

/// The table: one row for each release, written by hand.
pub open spec fn epoch_rows() -> Seq<EpochRow> {
    seq![
        EpochRow { core_version: "0.1.0", protocol_epoch_min: 1, protocol_epoch_max: 1 },
    ]
}

/// The table: one row for each release, written by hand.
#[must_use]
pub fn epoch_table() -> (rows: Vec<EpochRow>)
    ensures
        rows@ == epoch_rows(),
{
    let rows = vec![
        EpochRow { core_version: "0.1.0", protocol_epoch_min: 1, protocol_epoch_max: 1 },
    ];
    assert(rows@ =~= epoch_rows());
    rows
}

/// This build's version.
pub const CORE_VERSION: &'static str = "0.1.0";

/// The target of a build that nothing stamped.
pub const TARGET_TRIPLE: &'static str = "unknown";

/// The commit of a build that nothing stamped: obviously absent, rather than
/// plausible.
pub const SOURCE_COMMIT: &'static str = "";

/// The name of the profile that has everything: this build's.
pub const PROFILE: &'static str = "full";

/// The name of the profile that has no data plane.
pub const PROFILE_LITE: &'static str = "core-lite";

/// The row of a release, if the table has one.
#[must_use]
pub fn protocol_epochs(core_version: &str) -> (row: Option<EpochRow>)
    ensures
        match row {
            Some(row) => epoch_rows().contains(row) && row.core_version@ == core_version@,
            None => forall|i: int|
                0 <= i < epoch_rows().len() ==> (#[trigger] epoch_rows()[i]).core_version@
                    != core_version@,
        },
{
    let rows = epoch_table();
    let mut i: usize = 0;
    while i < rows.len()
        invariant
            i <= rows@.len(),
            rows@ == epoch_rows(),
            forall|j: int| 0 <= j < i ==> (#[trigger] rows@[j]).core_version@ != core_version@,
        decreases rows@.len() - i,
    {
        if same_text(rows[i].core_version, core_version) {
            assert(epoch_rows().contains(rows@[i as int]));
            return Some(rows[i]);
        }
        i += 1;
    }
    None
}

/// Every row declares a range that is not empty, and epoch 0 is in none.
pub proof fn every_row_is_a_range(i: int)
    requires
        0 <= i < epoch_rows().len(),
    ensures
        1 <= epoch_rows()[i].protocol_epoch_min <= epoch_rows()[i].protocol_epoch_max,
{
}

/// This build's version has a row.
pub proof fn this_version_has_a_row()
    ensures
        exists|i: int|
            0 <= i < epoch_rows().len() && (#[trigger] epoch_rows()[i]).core_version@
                == CORE_VERSION@,
{
    assert(epoch_rows()[0].core_version@ == CORE_VERSION@);
}

/// What the build pipeline knows and the source does not.
#[derive(Debug, Clone, Copy)]
pub struct BuildStamp {
    /// The target the artifact was built for.
    pub target_triple: &'static str,
    /// The commit that was stamped, or empty.
    pub source_commit: &'static str,
    /// The version of the reason-code registry it was compiled against.
    pub reason_registry_version: u32,
}

/// Where a record is written.
#[derive(Debug, Clone, Copy, PartialEq, Eq, Structural)]
pub enum Tier {
    /// The local ledger.
    LocalLedger,
    /// A diagnostic bundle.
    Bundle,
    /// Aggregate telemetry.
    Aggregate,
}

/// Why the record could not be assembled.
#[derive(Debug, Clone, Copy, PartialEq, Eq)]
#[non_exhaustive]
pub enum BuildIdentityError {
    /// The release has no row in the table, and none may be inferred.
    UnknownCoreVersion(&'static str),
}

/// What this build is.
#[derive(Debug, PartialEq, Eq)]
pub struct CoreBuildIdentity {
    /// The core version.
    pub core_version: &'static str,
    /// The ABI's major version.
    pub abi_major: u32,
    /// The ABI's minor version.
    pub abi_minor: u32,
    /// The lowest epoch it speaks, from the table.
    pub protocol_epoch_min: u32,
    /// The highest.
    pub protocol_epoch_max: u32,
    /// The digest of the schema set.
    pub schema_digest: Vec<u8>,
    /// The version of the reason-code registry.
    pub reason_registry_version: u32,
    /// A stable tag for the cryptographic provider in force.
    pub crypto_provider: String,
    /// The build profile.
    pub profile: &'static str,
    /// The build target.
    pub target_triple: &'static str,
    /// The stamped commit, or empty.
    pub source_commit: &'static str,
    /// Whether the platform's key store performs the record encryption itself.
    pub hardware_backed: bool,
    /// How the vault key is held, as a readable tag.
    pub sek_custody: String,
    /// The stable name of the platform adapter.
    pub adapter_binding: &'static str,
}

/// The transmissible form of a [`CoreBuildIdentity`].
#[derive(Debug, PartialEq, Eq)]
pub struct WireIdentity {
    /// The core version.
    pub core_version: &'static str,
    /// The ABI's major version, or 0 where it is omitted.
    pub abi_major: u32,
    /// The ABI's minor version, or 0 where it is omitted.
    pub abi_minor: u32,
    /// The lowest epoch it speaks.
    pub protocol_epoch_min: u32,
    /// The highest.
    pub protocol_epoch_max: u32,
    /// The digest of the schema set.
    pub schema_digest: Vec<u8>,
    /// The version of the reason-code registry.
    pub reason_registry_version: u32,
    /// A stable tag for the cryptographic provider in force.
    pub crypto_provider: String,
    /// The build profile.
    pub profile: &'static str,
    /// The build target.
    pub target_triple: &'static str,
    /// The stamped commit, or empty.
    pub source_commit: &'static str,
    /// Whether the platform's key store performs the record encryption itself.
    pub hardware_backed: bool,
}

impl CoreBuildIdentity {
    /// Assembles the record of a release. Every argument is a fact supplied by
    /// whoever holds it; the epochs come from the table.
    pub fn assemble_as(
        core_version: &'static str,
        abi_major: u32,
        abi_minor: u32,
        schema_digest: Vec<u8>,
        crypto_provider: String,
        hardware_backed: bool,
        sek_custody: String,
        adapter_binding: &'static str,
        stamp: BuildStamp,
        profile: Profile,
    ) -> (r: Result<Self, BuildIdentityError>)
        ensures
            match r {
                Ok(id) => exists|i: int|
                    0 <= i < epoch_rows().len() && (#[trigger] epoch_rows()[i]).core_version@
                        == core_version@ && id == (CoreBuildIdentity {
                        core_version,
                        abi_major,
                        abi_minor,
                        protocol_epoch_min: epoch_rows()[i].protocol_epoch_min,
                        protocol_epoch_max: epoch_rows()[i].protocol_epoch_max,
                        schema_digest,
                        reason_registry_version: stamp.reason_registry_version,
                        crypto_provider,
                        profile: name_of(profile),
                        target_triple: stamp.target_triple,
                        source_commit: stamp.source_commit,
                        hardware_backed,
                        sek_custody,
                        adapter_binding,
                    }),
                Err(e) => e == BuildIdentityError::UnknownCoreVersion(core_version) && forall|
                    i: int,
                |
                    0 <= i < epoch_rows().len() ==> (#[trigger] epoch_rows()[i]).core_version@
                        != core_version@,
            },
    {
        match protocol_epochs(core_version) {
            None => Err(BuildIdentityError::UnknownCoreVersion(core_version)),
            Some(row) => {
                proof {
                    let i = choose|i: int| 0 <= i < epoch_rows().len() && epoch_rows()[i] == row;
                    assert(epoch_rows()[i].core_version@ == core_version@);
                }
                Ok(
                    CoreBuildIdentity {
                        core_version,
                        abi_major,
                        abi_minor,
                        protocol_epoch_min: row.protocol_epoch_min,
                        protocol_epoch_max: row.protocol_epoch_max,
                        schema_digest,
                        reason_registry_version: stamp.reason_registry_version,
                        crypto_provider,
                        profile: profile_name(profile),
                        target_triple: stamp.target_triple,
                        source_commit: stamp.source_commit,
                        hardware_backed,
                        sek_custody,
                        adapter_binding,
                    },
                )
            },
        }
    }

    /// Assembles the record of this build. The table has its row, so it cannot fail.
    pub fn assemble(
        abi_major: u32,
        abi_minor: u32,
        schema_digest: Vec<u8>,
        crypto_provider: String,
        hardware_backed: bool,
        sek_custody: String,
        adapter_binding: &'static str,
        stamp: BuildStamp,
        profile: Profile,
    ) -> (r: Result<Self, BuildIdentityError>)
        ensures
            r == Ok::<Self, BuildIdentityError>(
                CoreBuildIdentity {
                    core_version: CORE_VERSION,
                    abi_major,
                    abi_minor,
                    protocol_epoch_min: 1,
                    protocol_epoch_max: 1,
                    schema_digest,
                    reason_registry_version: stamp.reason_registry_version,
                    crypto_provider,
                    profile: name_of(profile),
                    target_triple: stamp.target_triple,
                    source_commit: stamp.source_commit,
                    hardware_backed,
                    sek_custody,
                    adapter_binding,
                },
            ),
    {
        proof {
            this_version_has_a_row();
        }
        CoreBuildIdentity::assemble_as(
            CORE_VERSION,
            abi_major,
            abi_minor,
            schema_digest,
            crypto_provider,
            hardware_backed,
            sek_custody,
            adapter_binding,
            stamp,
            profile,
        )
    }

    /// The transmissible form, for where it is being written. The ABI pair
    /// identifies a build and has no aggregate meaning, so aggregate telemetry
    /// omits it.
    #[must_use]
    pub fn to_wire(&self, tier: Tier) -> (w: WireIdentity)
        ensures
            w.core_version == self.core_version,
            w.abi_major == (if tier == Tier::Aggregate {
                0
            } else {
                self.abi_major
            }),
            w.abi_minor == (if tier == Tier::Aggregate {
                0
            } else {
                self.abi_minor
            }),
            w.protocol_epoch_min == self.protocol_epoch_min,
            w.protocol_epoch_max == self.protocol_epoch_max,
            w.schema_digest@ == self.schema_digest@,
            w.reason_registry_version == self.reason_registry_version,
            w.crypto_provider == self.crypto_provider,
            w.profile == self.profile,
            w.target_triple == self.target_triple,
            w.source_commit == self.source_commit,
            w.hardware_backed == self.hardware_backed,
    {
        let carry_abi = !matches!(tier, Tier::Aggregate);
        WireIdentity {
            core_version: self.core_version,
            abi_major: if carry_abi { self.abi_major } else { 0 },
            abi_minor: if carry_abi { self.abi_minor } else { 0 },
            protocol_epoch_min: self.protocol_epoch_min,
            protocol_epoch_max: self.protocol_epoch_max,
            schema_digest: octets::to_vec(self.schema_digest.as_slice()),
            reason_registry_version: self.reason_registry_version,
            crypto_provider: self.crypto_provider.clone(),
            profile: self.profile,
            target_triple: self.target_triple,
            source_commit: self.source_commit,
            hardware_backed: self.hardware_backed,
        }
    }
}

} // verus!
