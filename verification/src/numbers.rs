//! Small numeric helpers.

use vstd::prelude::*;

verus! {

/// The number five.
pub fn five() -> (r: i32)
    ensures
        r == 5,
{
    5
}

/// The largest element of a non-empty list: it occurs in the list and no
/// element exceeds it.
pub fn largest(list: &Vec<i32>) -> (r: i32)
    requires
        list@.len() > 0,
    ensures
        list@.contains(r),
        forall|i: int| 0 <= i < list@.len() ==> #[trigger] list@[i] <= r,
{
    let mut largest: i32 = list[0];
    let mut i: usize = 1;
    while i < list.len()
        invariant
            1 <= i <= list@.len(),
            list@.contains(largest),
            forall|j: int| 0 <= j < i ==> #[trigger] list@[j] <= largest,
        decreases list@.len() - i,
    {
        let item = list[i];
        if item > largest {
            largest = item;
        }
        i += 1;
    }
    largest
}

} // verus!
