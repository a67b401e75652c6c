//! A sandboxed script execution and metering core.
//!
//! The library models the host side of a restricted script runtime: a
//! capability surface of write-only host operations, per-call accounting of
//! output, errors and gas, a textual import rewriter, and the assembly of
//! the scripts handed to the engine and of the reports handed back to the
//! caller. The script engine itself is an external collaborator driven by
//! the host process.

use vstd::prelude::*;

pub mod accounting;
pub mod json;
pub mod report;
pub mod runtime;
pub mod rewrite;
pub mod scripts;
pub mod text;

verus! {

/// Unconditional gas cost of starting a metered call.
pub const GAS_BASE: u64 = 1000;

/// Gas cost charged before the transpile phase of a metered call.
pub const GAS_TRANSPILE: u64 = 500;

/// Gas cost charged before the evaluation phase of a metered call.
pub const GAS_EVAL: u64 = 1000;

} // verus!
