//! Helpers shared by the entity decoders.

use vstd::prelude::*;
use crate::double::Double;
use crate::error::{DxfError, DxfResult};

verus! {

/// Combines two lists of coordinates, pair by pair, into items of the
/// drawing plane, and adds them to `result`. Both lists are emptied.
///
/// The lists must be of one length. Where they are not, nothing is changed
/// and the call fails.
pub fn combine_points_2<F, T>(
    v1: &mut Vec<Double>,
    v2: &mut Vec<Double>,
    result: &mut Vec<T>,
    comb: F,
) -> (r: DxfResult<()>) where F: Fn(Double, Double, Double) -> T
    requires
        forall|x: Double, y: Double| call_requires(comb, (x, y, Double::spec_zero())),
    ensures
        old(v1)@.len() != old(v2)@.len() ==> r == Err::<(), DxfError>(DxfError::MalformedValue)
            && final(v1)@ == old(v1)@ && final(v2)@ == old(v2)@ && final(result)@ == old(
            result,
        )@,
        old(v1)@.len() == old(v2)@.len() ==> r == Ok::<(), DxfError>(()) && final(v1)@.len() == 0
            && final(v2)@.len() == 0 && final(result)@.len() == old(result)@.len() + old(
            v1,
        )@.len(),
        old(v1)@.len() == old(v2)@.len() ==> forall|i: int|
            0 <= i < old(result)@.len() ==> final(result)@[i] == old(result)@[i],
        old(v1)@.len() == old(v2)@.len() ==> forall|i: int|
            0 <= i < old(v1)@.len() ==> call_ensures(
                comb,
                (old(v1)@[i], old(v2)@[i], Double::spec_zero()),
                #[trigger] final(result)@[old(result)@.len() + i],
            ),
{
    if v1.len() != v2.len() {
        return Err(DxfError::MalformedValue);
    }
    let n = v1.len();
    let mut i: usize = 0;
    while i < n
        invariant
            i <= n,
            n == v1@.len(),
            n == v2@.len(),
            v1@ == old(v1)@,
            v2@ == old(v2)@,
            result@.len() == old(result)@.len() + i,
            forall|x: Double, y: Double| call_requires(comb, (x, y, Double::spec_zero())),
            forall|j: int| 0 <= j < old(result)@.len() ==> result@[j] == old(result)@[j],
            forall|j: int|
                0 <= j < i ==> call_ensures(
                    comb,
                    (v1@[j], v2@[j], Double::spec_zero()),
                    #[trigger] result@[old(result)@.len() + j],
                ),
        decreases n - i,
    {
        let item = comb(v1[i], v2[i], Double::zero());
        result.push(item);
        i += 1;
    }
    v1.clear();
    v2.clear();
    Ok(())
}

} // verus!
