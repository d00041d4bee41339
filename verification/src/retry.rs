//! Which replies are worth sending a request again for.
use vstd::prelude::*;

verus! {

/// Whether a reply with status `status` is transient and the request is
/// retried: the server failed (500 to 599), the request timed out (408), or
/// it was throttled (429).
pub open spec fn spec_is_transient_status(status: u16) -> bool {
    (500 <= status && status <= 599) || status == 408 || status == 429
}

/// Returns whether a reply with status `status` is retried.
pub fn is_transient_status(status: u16) -> (r: bool)
    ensures
        r == spec_is_transient_status(status),
{
    (500 <= status && status <= 599) || status == 408 || status == 429
}

} // verus!
