//! A verified iterator-style transformation: squaring every element of a
//! vector of integers.

use vstd::prelude::*;

verus! {

/// Square every element, in order. The input is consumed; squares that
/// would overflow the element type are ruled out up front.
pub fn square_numbers(numbers: Vec<i32>) -> (r: Vec<i32>)
    requires
        forall|i: int| 0 <= i < numbers@.len() ==>
            #[trigger] (numbers@[i] * numbers@[i]) <= i32::MAX,
    ensures
        r@.len() == numbers@.len(),
        forall|i: int| 0 <= i < numbers@.len() ==> r@[i] == numbers@[i] * numbers@[i],
{
    let mut out: Vec<i32> = Vec::new();
    let mut idx: usize = 0;
    while idx < numbers.len()
        invariant
            idx <= numbers@.len(),
            out@.len() == idx,
            forall|i: int| 0 <= i < idx ==> out@[i] == numbers@[i] * numbers@[i],
            forall|i: int| 0 <= i < numbers@.len() ==>
                #[trigger] (numbers@[i] * numbers@[i]) <= i32::MAX,
        decreases numbers@.len() - idx,
    {
        let x = numbers[idx];
        proof {
            assert(x * x >= 0) by (nonlinear_arith);
        }
        out.push(x * x);
        idx += 1;
    }
    out
}

} // verus!
