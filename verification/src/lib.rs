//! Object-store adapter over a remote file-transfer server.
//!
//! The remote store knows nothing but filenames, so object identity is
//! synthesized out of the filename itself: a stored object's remote name is
//! the decimal form of a 128-bit identifier, a `-`, and the display name.
//! This crate holds the verified core of the adapter: the identifier codec,
//! the directory-listing translation, the upload and download planning, the
//! per-request protocol state machine, the mapping from failures to
//! client-facing outcomes, and the admin bearer-token check that gates the
//! endpoints. The surrounding server performs the network I/O and drives
//! the state machine.

pub mod codec;
pub mod listing;
pub mod machine;
pub mod response;
pub mod token;
pub mod upload;
