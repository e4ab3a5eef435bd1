//! Field defaults and the tests that decide which fields a scene file may leave out.
use vstd::prelude::*;

verus! {

/// Whether an integer field holds its default, zero.
pub fn is_zero_u32(v: &u32) -> (r: bool)
    ensures
        r == (*v == 0),
{
    *v == 0
}

/// Whether a flag holds its default, `true`.
pub fn is_true(v: &bool) -> (r: bool)
    ensures
        r == *v,
{
    *v
}

/// Default of a flag that is on unless the file says otherwise.
pub fn default_true() -> (r: bool)
    ensures
        r,
{
    true
}

} // verus!
