//! What the updater sends with its requests to the issue tracker.

use vstd::prelude::*;

verus! {

/// The `Authorization` header value for a token: `Bearer ` and the token.
pub fn authorization(token: &str) -> (r: String)
    ensures
        r@ == "Bearer "@ + token@,
{
    let mut r = String::from_str("Bearer ");
    r.append(token);
    r
}

} // verus!
