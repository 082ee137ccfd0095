use vstd::prelude::*;
use std::sync::Arc;

verus! {

/// Relies on std's `Arc::clone`: the clone is another reference-counted
/// handle to the same allocation, so as a value it equals the original.
#[verifier::external_body]
pub(crate) fn clone_arc<T>(a: &Arc<T>) -> (r: Arc<T>)
    ensures
        r == *a,
{
    a.clone()
}

} // verus!
