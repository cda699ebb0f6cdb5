//! Verified core of a recorder for KiwiSDR receivers.

pub mod laws;
pub mod monitor;
pub mod outside;
pub mod recorder;
pub mod sdr;
pub mod text;
