//! Normalisation of wire pointer-button codes.
use vstd::prelude::*;

verus! {

/// Normalises a decoded pointer-button code: the codes 0 to 3 (none, left,
/// right, middle) stand as they are, and any other code reads as 0, no
/// button.
pub fn deserialize(value: u8) -> (r: u8)
    ensures
        r == (if value <= 3 {
            value
        } else {
            0
        }),
{
    match value {
        0 => 0,
        1 => 1,
        2 => 2,
        3 => 3,
        _ => 0,
    }
}

} // verus!
