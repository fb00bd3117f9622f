//! Reconciles the bootloader's ordered deployment list into a stable,
//! serializable host-status snapshot: which deployment is booted, which is
//! staged, which is available for rollback, and what boot order is intended.

pub mod host;
pub mod reference;
pub mod render;
pub mod status;
pub mod strutil;
pub mod timestamp;
