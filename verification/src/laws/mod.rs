//! What holds of whole operations: from what one is asked and answered to what it does and
//! leaves behind.

pub mod arming;
pub mod binding;
pub mod carrying;
pub mod commanding;
pub mod connecting;
pub mod establishing;
pub mod hosting;
pub mod keeping;
pub mod network;
pub mod pairing;
pub mod reporting;
pub mod starting;
pub mod stopping;
pub mod trusting;
