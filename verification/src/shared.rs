//! Shared ownership.

use vstd::prelude::*;
use std::sync::Arc;

verus! {

/// `Arc::clone` of the standard library: a second pointer to the same
/// allocation. The contract claims that the new pointer designates the value
/// that the given one designates. Nothing is proved of it.
#[verifier::external_body]
pub(crate) fn share<T: ?Sized>(handle: &Arc<T>) -> (shared: Arc<T>)
    ensures
        shared == *handle,
{
    handle.clone()
}

} // verus!
