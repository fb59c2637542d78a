//! The settlement tracker: which batch has to be proved next.
//!
//! The proposer contract records, for each proving system, the latest batch
//! that it has verified. A batch is settled only when every needed system has
//! verified it, so the batch to prove next follows the smallest of those
//! records.

use vstd::prelude::*;

verus! {

/// The smallest number of a non-empty sequence.
pub open spec fn oldest_verified(latest: Seq<u64>) -> u64
    recommends
        latest.len() > 0,
    decreases latest.len(),
{
    if latest.len() <= 1 {
        latest[0]
    } else {
        let rest = oldest_verified(latest.drop_last());
        if latest.last() < rest {
            latest.last()
        } else {
            rest
        }
    }
}

/// The batch that follows the latest batch that every needed proving system has
/// verified. There is none when nothing is needed, and none when the number
/// would not fit.
pub open spec fn spec_next_batch_to_verify(latest: Seq<u64>) -> Option<u64> {
    if latest.len() == 0 || oldest_verified(latest) == u64::MAX {
        None
    } else {
        Some((oldest_verified(latest) + 1) as u64)
    }
}

/// `oldest_verified` is a member of the sequence, and no member is smaller.
pub proof fn lemma_oldest_verified(latest: Seq<u64>)
    requires
        latest.len() > 0,
    ensures
        exists|i: int| 0 <= i < latest.len() && latest[i] == oldest_verified(latest),
        forall|i: int| 0 <= i < latest.len() ==> oldest_verified(latest) <= latest[i],
    decreases latest.len(),
{
    if latest.len() <= 1 {
        assert(latest[0] == oldest_verified(latest));
    } else {
        let front = latest.drop_last();
        lemma_oldest_verified(front);
        assert forall|i: int| 0 <= i < latest.len() implies oldest_verified(latest)
            <= latest[i] by {
            if i < front.len() {
                assert(front[i] == latest[i]);
            }
        }
    }
}

/// Over an unchanged chain the tracker names the same batch again, and once
/// any proving system has verified more, with none going back, it never names
/// an earlier one.
pub proof fn lemma_next_batch_monotone(before: Seq<u64>, after: Seq<u64>)
    requires
        before.len() == after.len(),
        forall|i: int| 0 <= i < before.len() ==> before[i] <= after[i],
    ensures
        before == after ==> spec_next_batch_to_verify(before) == spec_next_batch_to_verify(after),
        spec_next_batch_to_verify(before) is None ==> spec_next_batch_to_verify(after) is None,
        spec_next_batch_to_verify(after) matches Some(later) ==> {
            &&& spec_next_batch_to_verify(before) matches Some(earlier)
            &&& earlier <= later
        },
{
    if before.len() > 0 {
        lemma_oldest_verified(before);
        lemma_oldest_verified(after);
    }
}

/// Computes the batch to prove next from the latest batch that each needed
/// proving system has verified.
pub fn next_batch_to_verify(latest_verified: &Vec<u64>) -> (next: Option<u64>)
    ensures
        next == spec_next_batch_to_verify(latest_verified@),
{
    if latest_verified.len() == 0 {
        return None;
    }
    let mut oldest: u64 = latest_verified[0];
    let mut i: usize = 1;
    while i < latest_verified.len()
        invariant
            1 <= i <= latest_verified.len(),
            oldest == oldest_verified(latest_verified@.take(i as int)),
        decreases latest_verified.len() - i,
    {
        let ghost seen = latest_verified@.take(i as int + 1);
        assert(seen.drop_last() =~= latest_verified@.take(i as int));
        if latest_verified[i] < oldest {
            oldest = latest_verified[i];
        }
        i = i + 1;
    }
    assert(latest_verified@.take(i as int) =~= latest_verified@);
    oldest.checked_add(1)
}

} // verus!
