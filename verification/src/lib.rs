//! A hierarchical directory and file abstraction over a content-addressed network.
//!
//! The crate holds the in-memory model of directories and files, the byte format in which a
//! directory is persisted, and the decisions of every operation that touches the network. The
//! network itself is not reached from here: an operation hands out one [`exchange::Request`] at
//! a time and is resumed with the [`exchange::Reply`] that the caller obtained for it.

use vstd::prelude::*;

pub mod bytes;
pub mod clock;
pub mod codec;
pub mod data_map;
pub mod directory_listing;
pub mod errors;
pub mod exchange;
pub mod file;
pub mod helper;
pub mod metadata;
pub mod name;
pub mod rest;
pub mod views;

verus! {

/// Name of the directory that roots everything a user stores.
pub const ROOT_DIRECTORY_NAME: &'static str = "USER_ROOT";

/// Name of the directory that roots the per-application configuration directories.
pub const CONFIGURATION_DIRECTORY_NAME: &'static str = "CONFIGURATION_ROOT";

/// First tag that the client layer leaves to the layers above it.
pub const CLIENT_STRUCTURED_DATA_TAG: u64 = 15000;

/// Tag of the structured data that records the versions of a versioned directory.
pub const VERSIONED_DIRECTORY_LISTING_TAG: u64 = CLIENT_STRUCTURED_DATA_TAG + 100;

/// Tag of the structured data that carries an unversioned directory.
pub const UNVERSIONED_DIRECTORY_LISTING_TAG: u64 = VERSIONED_DIRECTORY_LISTING_TAG + 1;

/// Whether a directory is encrypted under its owner's keys or stored in the clear.
#[derive(Clone, Copy, Debug, PartialEq, Eq, Structural, PartialOrd, Ord, Hash)]
pub enum AccessLevel {
    /// Encrypted with the owner's keys.
    Private,
    /// Stored as plain bytes that anyone can read.
    Public,
}

} // verus!
