//! Building and comparing text.
use vstd::prelude::*;
use vstd::string::StringExecFns;

verus! {

/// Whether a string holds exactly the given text.
pub fn text_is(s: &String, lit: &str) -> (r: bool)
    ensures
        r == (s@ == lit@),
{
    let t: String = lit.to_owned();
    *s == t
}

} // verus!
