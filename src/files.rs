use vstd::prelude::*;
use vstd::string::StringExecFns;

verus! {

/// Joins the contents of two files, the first one's first.
pub fn concat(data_a: String, data_b: &str) -> (r: String)
    ensures
        r@ == data_a@ + data_b@,
{
    data_a.concat(data_b)
}

} // verus!
