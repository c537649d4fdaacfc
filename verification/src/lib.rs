//! The nucleus of a small version-control tool: the envelope that frames an
//! object's bytes, the content hash that names it, the compressed form in which
//! it is stored, and the rules by which a repository is laid out and found.
//!
//! The library never touches the disk. Whatever it needs to know of the
//! filesystem it takes as plain values, and whatever has to happen there it
//! hands back as a list of steps for the caller to carry out.

pub mod error;
pub mod envelope;
pub mod outside;
pub mod repo;
pub mod object;
