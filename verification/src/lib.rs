//! Acquisition and installation of modpack release archives.
//!
//! The crate holds the decisions of an updater that looks up the latest
//! release of a modpack, picks the archive built for the user's launcher,
//! obtains it from a local cache or from the network, checks its SHA-256
//! digest, and unpacks it into the launcher's instance directory. Everything
//! here works on plain values; the caller performs the requests and the
//! filesystem operations that the library asks for.

pub mod cache;
pub mod destination;
pub mod digest;
pub mod download;
pub mod error;
pub mod fetch;
pub mod fetch_model;
pub mod hex;
pub mod install;
pub mod install_model;
pub mod launcher;
pub mod location;
pub mod release;
pub mod text;
