//! The share of a transaction pool that one block takes.

use near_primitives::transaction::SignedTransaction;
use vstd::prelude::*;

verus! {

/// The transactions that one block takes from the lanes of a pool: of each
/// lane that holds any, the first, in the order of the lanes.
pub open spec fn batch_of(lanes: Seq<Vec<SignedTransaction>>) -> Seq<SignedTransaction>
    decreases lanes.len(),
{
    if lanes.len() == 0 {
        Seq::empty()
    } else if lanes.last()@.len() > 0 {
        batch_of(lanes.drop_last()).push(lanes.last()@[0])
    } else {
        batch_of(lanes.drop_last())
    }
}

/// What stays in a lane when a block has taken its transaction from it.
pub open spec fn rest_of(lane: Seq<SignedTransaction>) -> Seq<SignedTransaction> {
    if lane.len() > 0 {
        lane.drop_first()
    } else {
        lane
    }
}

/// Takes the transactions of one block from the lanes of a pool: one from
/// each lane that holds any. The order within a lane, and which
/// transactions share a lane, is the pool's business.
pub fn prepare_transactions(lanes: &mut Vec<Vec<SignedTransaction>>) -> (res: Vec<SignedTransaction>)
    ensures
        res@ == batch_of(old(lanes)@),
        final(lanes)@.len() == old(lanes)@.len(),
        forall|i: int| 0 <= i < old(lanes)@.len() ==> (#[trigger] final(lanes)@[i])@ == rest_of(old(lanes)@[i]@),
{
    let mut res: Vec<SignedTransaction> = Vec::new();
    let mut i: usize = 0;
    while i < lanes.len()
        invariant
            i <= lanes@.len(),
            lanes@.len() == old(lanes)@.len(),
            res@ == batch_of(old(lanes)@.subrange(0, i as int)),
            forall|j: int| 0 <= j < i ==> (#[trigger] lanes@[j])@ == rest_of(old(lanes)@[j]@),
            forall|j: int| i <= j < lanes@.len() ==> lanes@[j] == old(lanes)@[j],
        decreases lanes@.len() - i,
    {
        proof {
            let upto = old(lanes)@.subrange(0, i + 1);
            assert(upto.drop_last() =~= old(lanes)@.subrange(0, i as int));
            assert(upto.last() == old(lanes)@[i as int]);
        }
        if lanes[i].len() > 0 {
            let tx = lanes[i].remove(0);
            res.push(tx);
        }
        i = i + 1;
    }
    assert(old(lanes)@.subrange(0, i as int) =~= old(lanes)@);
    res
}

} // verus!
