//! Governance core for automated coding tasks: a hash-chained audit ledger,
//! a capability-scoring router with per-provider rate limits, and a shield
//! that redacts sensitive text and enforces a destination allow-list.

pub mod git;
pub mod json;
pub mod ledger;
pub mod limiter;
pub mod pattern;
pub mod providers;
pub mod router;
pub mod schemas;
pub mod shield;
pub mod text;
pub mod tools;
pub mod truth;

use vstd::prelude::*;

verus! {

/// The release of this library.
pub const VERSION: &'static str = "0.1.0";

/// The release of this library, as text.
pub fn version() -> (r: &'static str)
    ensures
        r@ == VERSION@,
{
    VERSION
}

} // verus!
