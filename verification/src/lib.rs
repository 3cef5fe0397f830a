//! Serving bare git repositories over plain HTTP file access.
//!
//! The library holds the rules of the tool: which directories count as
//! served repositories, what the discovery files `info/refs` and
//! `info/packs` contain, which request paths stay inside the serving root,
//! how a new repository is set up, and when a sharing session ends.  Every
//! function works on plain values; reading the disk, talking to git and
//! answering HTTP requests is left to the program around it.

pub mod error;
pub mod text;
pub mod split;
pub mod lines;
pub mod lifecycle;
pub mod discovery;
pub mod server_info;
pub mod snapshot_laws;
pub mod session;
pub mod request_path;
pub mod containment_laws;
pub mod serving;
