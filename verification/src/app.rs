use vstd::prelude::*;
use vstd::string::StringExecFns;

verus! {

/// The path prefix under which the order routes are mounted.
pub open spec fn orders_path_spec() -> Seq<char> {
    "/orders"@
}

/// Returns the path prefix of the order routes, `/orders`.
pub fn orders_path() -> (path: String)
    ensures
        path@ == orders_path_spec(),
{
    String::from_str("/orders")
}

} // verus!
