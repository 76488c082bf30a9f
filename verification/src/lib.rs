//! Decoder for ECMA-335 CLI images in PE/COFF containers.
//!
//! The crate turns a byte buffer holding a managed executable into an
//! in-memory model of its static structure: the PE layout and section
//! table, the CLI runtime header, the metadata root with its streams,
//! the logical metadata tables, and the IL body of the entry-point
//! method. Parsing is read-only and fail-fast: the first violated
//! invariant aborts with an error, and no partial structures escape.

pub mod buf;
pub mod cli;
pub mod error;
pub mod pe;
pub mod utils;
