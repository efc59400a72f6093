//! Session, handshake and fan-out machinery of a live trace-collection service.

use vstd::prelude::*;

pub mod async_req_res;
pub mod stop;
pub mod tmp;
pub mod tracing_msg;

verus! {

/// Sum of two sizes.
pub fn add(left: usize, right: usize) -> (sum: usize)
    requires
        left + right <= usize::MAX,
    ensures
        sum == left + right,
{
    left + right
}

} // verus!
