//! Verified core of a lyrics-sidecar synchronizer.
//!
//! Given a collection of audio tracks, the tool reads each track's embedded
//! metadata, queries a remote lyrics database, and writes a lyrics sidecar
//! file next to the track.  This crate holds the decision logic of that
//! pipeline — extension filtering, scan ordering, sidecar path derivation,
//! the skip/fetch decision, lookup-response classification, sidecar content
//! generation, and outcome accounting — each function with a proved
//! contract.  The surrounding I/O (tag reading, HTTP, the filesystem) stays
//! outside and hands this crate plain values.

pub mod stats;
pub mod text;
pub mod ext;
pub mod paths;
pub mod marker;
pub mod numfmt;
pub mod record;
pub mod decision;
pub mod query;
pub mod scan;
