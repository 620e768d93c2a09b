//! Selection of an entropy source from an ordered list of candidates.
//!
//! The process boundary tries, in order of decreasing preference, the
//! general-purpose random device, the hardware random-number generator and
//! the fallback random device; for each candidate it reports either the six
//! bytes that were read or nothing, when the device could not be opened or
//! could not supply six bytes. This module holds the policy itself:
//! first success wins, and when every candidate failed there is no
//! outcome at all — never a zero-filled or partially filled draw.

use vstd::prelude::*;

verus! {

/// Pick the first successful draw among the three candidate sources, in
/// order of preference. Yields nothing exactly when all three failed.
pub fn select_entropy(first: Option<[u8; 6]>, second: Option<[u8; 6]>, third: Option<[u8; 6]>) -> (r:
    Option<[u8; 6]>)
    ensures
        first is Some ==> r == first,
        first is None && second is Some ==> r == second,
        first is None && second is None ==> r == third,
        r is None <==> first is None && second is None && third is None,
{
    if first.is_some() {
        first
    } else if second.is_some() {
        second
    } else {
        third
    }
}

} // verus!
