//! Decoding of captured page records, the per-domain ingestion rules, and
//! the ledger of result buffers handed across the search boundary.

pub mod boundary;
pub mod codec;
pub mod ingest;
