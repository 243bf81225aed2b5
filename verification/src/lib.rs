//! Randomized block copy: the rules of a copy run that reads a source in
//! chunks and writes each chunk at a random offset of a fixed-size
//! destination.
//!
//! The crate holds the decisions of such a run and proves them: how a size
//! text is read, which chunk size and which offset are drawn, what follows
//! each outcome of a read or a write, how the coverage bitmap is kept and
//! drawn, and how progress is put into words. Opening files, reading,
//! writing, sleeping and printing are left to the caller.

pub mod bitmap;
pub mod config;
pub mod engine;
pub mod format;
pub mod random;
pub mod report;
pub mod size;
pub mod text;
