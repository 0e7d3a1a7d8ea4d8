use vstd::prelude::*;

verus! {

/// Picks a value that was supplied at build time, or `default` when none was.
pub fn or_str(opt: Option<&'static str>, default: &'static str) -> (r: &'static str)
    ensures
        r == match opt {
            Some(v) => v,
            None => default,
        },
{
    match opt {
        Some(val) => val,
        None => default,
    }
}

} // verus!
