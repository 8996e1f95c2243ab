//! Bool-coercion helpers that turn raw simulator values into "lit" decisions.

use vstd::prelude::*;

verus! {

/// Autopilot mode (0 off / 1 armed / 2 captured): lit on armed-or-better.
pub fn get_ap_state(value: i32) -> (lit: bool)
    ensures
        lit == (value >= 1),
{
    value >= 1
}

/// True iff any element equals 1. Used for per-engine annunciator arrays.
pub fn array_has_true(array: &[i32]) -> (found: bool)
    ensures
        found == array@.contains(1),
{
    let mut i: usize = 0;
    while i < array.len()
        invariant
            i <= array@.len(),
            forall|k: int| 0 <= k < i ==> array@[k] != 1,
        decreases array@.len() - i,
    {
        if array[i] == 1 {
            assert(array@[i as int] == 1);
            return true;
        }
        i += 1;
    }
    false
}

/// Coerce a simulator "boolean" int (0 / 1) to a `bool`.
pub fn int_to_bool(value: i32) -> (b: bool)
    ensures
        b == (value != 0),
{
    value != 0
}

} // verus!
