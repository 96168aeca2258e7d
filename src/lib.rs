//! Storage-reliability engine of an embedded recording appliance: mount
//! lifecycle, health sampling, space reclamation and bulk clearing of a
//! single mass-storage volume, stated as verified decision logic.
//!
//! Everything that touches the operating system (reading the mount table,
//! `statvfs`, running `fsck`/`mkfs`/`mount`, walking directories, sleeping)
//! is performed by the embedding program; the library decides what to do
//! next and keeps the shared storage record consistent.
//!
//! Beside the storage core: the configuration store (lookups and defaults)
//! and the device-communication packet format (CRC-8, decoding, replies).

pub mod config;
pub mod storage;
pub mod reclaim;
pub mod mounts;
pub mod provision;
pub mod lifecycle;
pub mod wake;
pub mod clear;
pub mod protocol;
