//! The calls that read the clock.
//!
//! Nothing in this file is proved, and nothing is claimed either: what a
//! clock says differs from call to call.

use vstd::prelude::*;

verus! {

/// `std::time::Instant`: a moment on the clock. Nothing inside it is read
/// here.
#[verifier::external_type_specification]
#[verifier::external_body]
pub struct ExInstant(std::time::Instant);

/// `Instant::clone`: a moment is copied as it is.
pub assume_specification[ <std::time::Instant as Clone>::clone ](
    moment: &std::time::Instant,
) -> (copy: std::time::Instant)
    ensures
        copy == *moment,
;

/// `Instant::now`: the present moment.
#[verifier::external_body]
pub(crate) fn now() -> std::time::Instant {
    std::time::Instant::now()
}

/// `Instant::elapsed`: the time that has passed since the moment.
#[verifier::external_body]
pub(crate) fn elapsed(since: &std::time::Instant) -> std::time::Duration {
    since.elapsed()
}

/// `Duration::as_millis`: the whole milliseconds in a span of time.
#[verifier::external_body]
pub(crate) fn whole_millis(span: &std::time::Duration) -> u128 {
    span.as_millis()
}

} // verus!
