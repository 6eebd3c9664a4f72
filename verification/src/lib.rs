//! Glue-code generator core for bridging a natively-compiled module and a
//! managed, garbage-collected runtime.
//!
//! The crate covers the pure, verifiable heart of the generator: the
//! intermediate type model and the per-type code generator, the per-target
//! output accumulator, the linkage-anchor generator, the exported-symbol
//! prefix rewrite, the toolchain precondition checks, and the classification
//! of external tool outcomes.  File and process I/O stay outside, in thin
//! unverified callers that hand plain values in and take plain values back.

pub mod cgen;
pub mod commands;
pub mod delegate;
pub mod error;
pub mod ir;
pub mod repo;
pub mod rewrite;
pub mod target;
pub mod text;
pub mod time;
pub mod version;
pub mod wire;
