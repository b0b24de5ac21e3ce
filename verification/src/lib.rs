//! A read-only query pipeline over persisted blockchain blocks and
//! transactions: fetch a block by hash, by height, or the latest N, classify
//! every transaction it contains with a descriptive label, and, for the
//! "latest" modes, annotate each block with the consensus epoch at its height.
//!
//! Storage reads, payload decoding and the epoch lookup are outside
//! collaborators. The pipeline is a step-driven machine: it hands the driver
//! an [`query::Action`] naming the one outside call to make next, and the
//! driver answers with an [`query::Event`] carrying the plain result. Every
//! decision between those calls is made and verified here.

pub mod assemble;
pub mod classify;
pub mod hex_id;
pub mod query;
pub mod types;
