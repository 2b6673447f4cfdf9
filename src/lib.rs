//! Safe boundary layer around a native pattern-matching engine.
//!
//! The engine itself is driven by the caller; this library holds the
//! decisions made around each engine call: status-code translation,
//! diagnostic aggregation, lifecycle counting, stream-bridge error
//! precedence and the projection of native lists into owned values.

pub mod yara_sys;
pub mod errors;
pub mod initialize;
pub mod stream;
pub mod matches;
pub mod meta;
pub mod rules;
pub mod string;
pub mod compiler;
