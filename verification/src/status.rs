//! HTTP status codes and the success range.

use vstd::prelude::*;

verus! {

/// Whether `code` lies in the success range of HTTP status codes, 200 to 299.
pub open spec fn is_success_code(code: u16) -> bool {
    200 <= code < 300
}

/// Tells whether a response with status `code` counts as successful.
pub fn is_success(code: u16) -> (ok: bool)
    ensures
        ok == is_success_code(code),
{
    200 <= code && code < 300
}

} // verus!
