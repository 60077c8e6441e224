//! The library's window onto the outside crates it leans on: a random
//! index and the wall clock. Each function here is trusted; its contract
//! states no more than the crate's own documentation promises.

use vstd::prelude::*;

verus! {

/// Relies on rand::random_range over `0..n`: a value sampled uniformly
/// from the half-open range, hence below the bound; it panics only on an
/// empty range, which the precondition rules out. Nothing more is assumed
/// of a random draw.
#[verifier::external_body]
pub fn random_below(n: usize) -> (r: usize)
    requires
        0 < n,
    ensures
        r < n,
{
    rand::random_range(0..n)
}

/// Relies on chrono::Utc::now and chrono::DateTime::timestamp: the
/// current time as whole seconds since the Unix epoch. Nothing is assumed
/// of the clock's reading; a system clock set before 1970 fails inside
/// the call itself.
#[verifier::external_body]
pub fn now_unix_secs() -> (r: i64) {
    chrono::Utc::now().timestamp()
}

} // verus!
