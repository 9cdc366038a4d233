//! Decoders for the per-module debug subsections of the CodeView C13 format:
//! the subsection framing, line-number programs, file checksum tables,
//! inlinee line tables, cross-module import/export tables, and the
//! reconstruction of source-line records for inlined call sites.
//!
//! Every decoder works over an immutable byte buffer and produces owned value
//! records; decoding is a pure function of the bytes and a cursor position.

pub mod types;
pub mod bytes;
pub mod framer;
pub mod lines;
pub mod checksums;
pub mod inlinees;
pub mod inline_lines;
pub mod cross;
pub mod program;
