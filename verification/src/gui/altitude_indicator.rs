//! The altitude tape of the display.

use vstd::prelude::*;

verus! {

/// The marks of the altitude tape from `start` up to, and without, `end`:
/// `start`, `start + increment`, `start + 2 * increment` and so on, as many
/// as lie below `end`.
pub fn generate_alt_scale(start: i32, end: i32, increment: i32) -> (results: Vec<i32>)
    requires
        increment > 0,
    ensures
        forall|k: int| 0 <= k < results@.len() ==> #[trigger] results@[k] == start + k * increment,
        forall|k: int| 0 <= k < results@.len() ==> #[trigger] results@[k] < end,
        start + results@.len() * increment >= end,
{
    let mut results: Vec<i32> = Vec::new();
    let mut current_value: i64 = start as i64;
    assert(0 * increment == 0) by (nonlinear_arith);
    while current_value < end as i64
        invariant
            increment > 0,
            current_value == start + results@.len() * increment,
            forall|k: int|
                0 <= k < results@.len() ==> #[trigger] results@[k] == start + k * increment,
            forall|k: int| 0 <= k < results@.len() ==> #[trigger] results@[k] < end,
        decreases
            if current_value < end {
                end - current_value
            } else {
                0
            },
    {
        assert((results@.len() + 1) * increment == results@.len() * increment + increment)
            by (nonlinear_arith);
        results.push(current_value as i32);
        current_value = current_value + increment as i64;
    }
    results
}

} // verus!
