//! A local mirror of the per-ASN subnet dataset and the lookups served from it.
//!
//! The crate holds the decisions of the mirror: where a record lives on disk,
//! in which order the version-control operations of a provisioning or an
//! update run are requested, which files an update reports as changed, which
//! JSON values are records, and how the outcome of reading one file becomes a
//! response or a typed error. Disk and network are the caller's: it carries
//! out the operations it is asked for and reports back in plain values.

pub mod asn_ip;
pub mod json;
pub mod mcp;
pub mod text;
