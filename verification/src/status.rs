//! Interpretation of the integer status codes that `libdummy` returns.
use vstd::prelude::*;

verus! {

/// A status code of `libdummy` reports success when it is zero or positive.
pub open spec fn spec_status_succeeded(code: i32) -> bool {
    code >= 0
}

/// Maps a status code returned by `send` or `cancel` to the boolean the
/// library hands to its users: `true` exactly when the code is `>= 0`.
pub fn status_succeeded(code: i32) -> (ok: bool)
    ensures
        ok == spec_status_succeeded(code),
        ok <==> code >= 0,
        code < 0 ==> !ok,
{
    code >= 0
}

/// Every status code is read by its sign alone: each non-negative code reports
/// success and each negative code reports failure, whatever its magnitude.
pub proof fn lemma_status_is_sign(code: i32)
    ensures
        code >= 0 ==> spec_status_succeeded(code),
        code < 0 ==> !spec_status_succeeded(code),
{
}

/// Two status codes report the same outcome exactly when they have the same
/// sign.
pub proof fn lemma_status_same_sign_same_outcome(a: i32, b: i32)
    ensures
        (spec_status_succeeded(a) == spec_status_succeeded(b)) <==> ((a >= 0) == (b >= 0)),
{
}

} // verus!
