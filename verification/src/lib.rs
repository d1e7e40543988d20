//! A verified core for a sandboxed, range-readable byte store.
//!
//! The store exposes objects held in a single flat data directory through
//! metadata (`head`), content (`get`) and listing operations, and an
//! ingestion pipeline that turns raw delimited text into a typed columnar
//! object persisted under a caller-supplied content key.  All decision
//! logic — byte-range resolution, parser-configuration defaulting,
//! metadata projection, ingestion orchestration — is verified here;
//! the host environment supplies the raw file data and performs the
//! actual reads and writes.

pub mod catalog;
pub mod config;
pub mod ingest;
pub mod meta;
pub mod range;
pub mod store;
