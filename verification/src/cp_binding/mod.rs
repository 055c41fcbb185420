//! The three ports of the control-plane client: its store, its transport and its
//! verifier of signed statements. Each refuses rather than pretends.

pub mod statements;
pub mod store;
pub mod transport;
