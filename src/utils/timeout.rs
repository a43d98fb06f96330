//! Timeout values.

use std::time::Duration;
use vstd::prelude::*;

verus! {

/// Default read timeout, in milliseconds.
pub const DEFAULT_READ_TIMEOUT_MS: u64 = 1000;

/// Relies on `Duration::from_millis`: a duration of `n` milliseconds.
#[verifier::external_body]
pub fn ms(n: u64) -> Duration {
    Duration::from_millis(n)
}

/// The default read timeout as a duration.
pub fn default_read_timeout() -> Duration {
    ms(DEFAULT_READ_TIMEOUT_MS)
}

} // verus!
