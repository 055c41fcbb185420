//! What a restart brings back: what was queued becomes the vault's, and what the vault
//! holds is known to the next process again.

pub mod planes;
pub mod sessions;
