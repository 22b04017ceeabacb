//! Turns a source package's manifest into the inputs for a derived
//! wrapper project: it reads the manifest, finds the owning workspace's
//! shared dependency definitions when an entry defers to them, rewrites
//! relative paths inside dependency specifications to canonical absolute
//! form, and writes the derived project's manifest and definitions.

pub mod strutil;
pub mod paths;
pub mod document;
pub mod errors;
pub mod resolve;
pub mod workspace;
pub mod manifest;
pub mod args;
pub mod interface;
pub mod init;
