//! The seal of [`RateLimitData`](super::RateLimitData).

use vstd::prelude::*;

verus! {

/// Only this library's own types carry rate-limit data.
pub trait Sealed {

}

impl Sealed for super::RateLimit {

}

impl Sealed for super::RateLimitIgnore {

}

} // verus!
