//! Client-side building blocks for an identity-and-access-management service:
//! a chained error taxonomy, the request and response models, and the pure
//! parts of the clients that speak to the server.

use vstd::prelude::*;

pub mod api;
pub mod clock;
pub mod error;
pub mod iam;
pub mod json;

verus! {

/// Adds two sizes.
pub fn add(left: usize, right: usize) -> (sum: usize)
    requires
        left + right <= usize::MAX,
    ensures
        sum == left + right,
{
    left + right
}

} // verus!
