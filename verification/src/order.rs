//! What holds of deliveries taken together.

use crate::console::one_delivery;
use vstd::prelude::*;

verus! {

/// Two deliveries, one after the other, leave the console with exactly two
/// lines more than it had, in the order of the calls: what was there before
/// stays in place, then comes the line of the first call, then the line of the
/// second.
pub proof fn lemma_two_deliveries_in_call_order(
    before: Seq<Seq<char>>,
    between: Seq<Seq<char>>,
    after: Seq<Seq<char>>,
)
    requires
        one_delivery(before, between),
        one_delivery(between, after),
    ensures
        after.len() == before.len() + 2,
        after == before.push(between.last()).push(after.last()),
        after.subrange(0, before.len() as int) == before,
        after[before.len() as int] == between.last(),
        after[before.len() as int + 1] == after.last(),
{
    assert(after.subrange(0, before.len() as int) =~= before);
}

} // verus!
