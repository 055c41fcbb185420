//! The composition root of a mesh VPN client, as a library of verified decisions.
//!
//! The library decides and its host acts: a function takes what the platform, a store
//! or a peer answered, and says what is to be asked next.

use vstd::prelude::*;

pub mod bridge;
pub mod build_identity;
pub mod cp_binding;
pub mod datapath;
pub mod dispatch;
pub mod enforce;
pub mod establish;
pub mod events;
pub mod execute;
pub mod gateway;
pub mod instance;
pub mod journal;
pub mod laws;
pub mod lite;
pub mod octets;
pub mod pairing;
pub mod planes;
pub mod reason;
pub mod restart;
pub mod session;
pub mod session_table;
pub mod table;
pub mod types;
pub mod upkeep;
pub mod vault;

pub use build_identity::{CoreBuildIdentity, EpochRow};
pub use events::{CoreEvent, CoreEventKind, EventStream};
pub use instance::{Core, CoreParts, VaultState};
pub use planes::{ControlPlanePort, DataPlaneView, PeerRecord};

verus! {

/// The ABI's major version: the one that a shell must be compiled against.
pub const ABI_MAJOR: u32 = 1;

/// The ABI's minor version.
pub const ABI_MINOR: u32 = 1;

} // verus!
