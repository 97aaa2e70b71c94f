use vstd::prelude::*;
use crate::reply::{Status, status_code};

verus! {

/// The liveness check: it touches no storage and always answers 200.
pub fn health() -> (r: Status)
    ensures
        r == Status::Success,
        status_code(r) == 200,
{
    Status::Success
}

} // verus!
