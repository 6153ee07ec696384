//! Per-provider token buckets, kept by the governor crate.

use vstd::prelude::*;

verus! {

/// A token bucket of governor's. Verus cannot read governor's declaration
/// of `RateLimiter` (its bounds name governor's own traits), so the limiter
/// is held here, out of Verus's sight; only the two functions below touch it.
#[verifier::external_body]
pub struct TokenBucket {
    inner: governor::DefaultDirectRateLimiter,
}

/// Relies on governor's `RateLimiter::direct` with `Quota::per_second`: a
/// fresh bucket of `per_second` permits, refilled at that rate.
#[verifier::external_body]
pub(crate) fn new_bucket(per_second: u32) -> (r: TokenBucket)
    requires
        per_second > 0,
{
    let quota = governor::Quota::per_second(std::num::NonZeroU32::new(per_second).unwrap());
    TokenBucket { inner: governor::RateLimiter::direct(quota) }
}

/// Relies on governor's `RateLimiter::check`: it takes one permit if one is
/// available now. Whether one is depends on the clock and on earlier calls,
/// so nothing is promised of the result.
#[verifier::external_body]
pub(crate) fn take_permit(bucket: &TokenBucket) -> (r: bool) {
    bucket.inner.check().is_ok()
}

} // verus!
