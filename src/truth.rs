//! Findings of the external scanners that halt a run.

use vstd::prelude::*;

verus! {

/// One finding of a scanner.
pub struct TruthViolation {
    pub engine: String,
    pub rule_id: String,
    pub severity: String,
    pub message: String,
    pub file: String,
    pub line: usize,
}

/// The scanners; they run as processes, outside this library.
pub struct TruthEngine;

} // verus!
