use vstd::prelude::*;

verus! {

/// Where the root path of the server sends its visitors: the static asset root.
pub fn redirect_to_static() -> (r: &'static str)
    ensures
        r@ == "/static"@,
{
    "/static"
}

} // verus!
