//! Core logic of a desktop controller for Matter smart-home devices: the
//! in-memory log buffer, the per-device status table and data cache, the
//! session-recovery policy, and the decoding and labelling of the values that
//! devices report.

pub mod logging;
pub mod text;
pub mod devices;
pub mod tree;
pub mod state;
pub mod retry;
pub mod clusters;
pub mod tlv;
pub mod attributes;
pub mod invoke;
pub mod write;
pub mod commission;
pub mod discovery;
pub mod probe;
