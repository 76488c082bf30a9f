//! Decoders for the CLI (ECMA-335) side of the image: runtime header,
//! metadata root and streams, heaps, logical tables, metadata tokens,
//! and the IL of the entry-point method.

pub mod blobs;
pub mod guids;
pub mod header;
pub mod il;
pub mod logical_tables;
pub mod strings;
pub mod token;
