//! What HTTP statuses mean to the node.
use vstd::prelude::*;

verus! {

/// Whether a request succeeded; the status is absent where the peer could not be reached.
pub open spec fn success(status: Option<u16>) -> bool {
    status matches Some(code) && 200 <= code < 300
}

/// The status with which a storage node answers a device that it has already registered.
pub const CONFLICT: u16 = 409;

/// Tells whether a request succeeded.
pub fn is_success(status: Option<u16>) -> (r: bool)
    ensures
        r == success(status),
{
    match status {
        Some(code) => 200 <= code && code < 300,
        None => false,
    }
}

} // verus!
