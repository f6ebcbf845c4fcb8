//! A content-addressed, hermetic package builder: recipes are fingerprinted,
//! built in a private root, and their outputs kept under a store path derived
//! from the fingerprint.

pub mod chroot;
pub mod command;
pub mod download;
pub mod driver;
pub mod error;
pub mod fetch;
pub mod hashing;
pub mod layout;
pub mod recipe;
pub mod runs;
pub mod sandbox;
pub mod text;
