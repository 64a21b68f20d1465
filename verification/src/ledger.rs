//! The donation ledger: entries in order of arrival, and their total.

use vstd::prelude::*;
use crate::error::ContractError;
use crate::state::all_positive;
use crate::state::ledger_sum;
use crate::state::Donation;

verus! {

/// Appending an entry adds its amount to the sum.
pub proof fn lemma_sum_push(entries: Seq<Donation>, entry: Donation)
    ensures
        ledger_sum(entries.push(entry)) == ledger_sum(entries) + entry.amount,
{
    assert(entries.push(entry).drop_last() =~= entries);
}

/// The sum of the first entries is at most the sum of all of them.
pub proof fn lemma_sum_prefix(entries: Seq<Donation>, n: int)
    requires
        0 <= n <= entries.len(),
    ensures
        ledger_sum(entries.take(n)) <= ledger_sum(entries),
    decreases entries.len(),
{
    if n < entries.len() {
        assert(entries.drop_last().take(n) =~= entries.take(n));
        lemma_sum_prefix(entries.drop_last(), n);
    } else {
        assert(entries.take(n) =~= entries);
    }
}

/// Appending an entry of a positive amount keeps every entry positive.
pub proof fn lemma_positive_push(entries: Seq<Donation>, entry: Donation)
    requires
        all_positive(entries),
        entry.amount > 0,
    ensures
        all_positive(entries.push(entry)),
{
    assert forall|i: int| 0 <= i < entries.push(entry).len() implies (#[trigger] entries.push(
        entry,
    )[i]).amount > 0 by {
        if i < entries.len() {
            assert(entries.push(entry)[i] == entries[i]);
        }
    }
}

/// The total of a ledger: the sum of its amounts, or `ArithmeticOverflow`
/// where the sum does not fit in 128 bits.
pub fn total(entries: &Vec<Donation>) -> (sum: Result<u128, ContractError>)
    ensures
        ledger_sum(entries@) <= u128::MAX ==> sum == Ok::<u128, ContractError>(
            ledger_sum(entries@) as u128,
        ),
        ledger_sum(entries@) > u128::MAX ==> sum == Err::<u128, ContractError>(
            ContractError::ArithmeticOverflow,
        ),
{
    let mut sum: u128 = 0;
    let mut i: usize = 0;
    assert(entries@.take(0) =~= Seq::<Donation>::empty());
    while i < entries.len()
        invariant
            i <= entries@.len(),
            sum == ledger_sum(entries@.take(i as int)),
        decreases entries@.len() - i,
    {
        proof {
            assert(entries@.take(i + 1) =~= entries@.take(i as int).push(entries@[i as int]));
            lemma_sum_push(entries@.take(i as int), entries@[i as int]);
        }
        match sum.checked_add(entries[i].amount) {
            Some(next) => {
                sum = next;
            },
            None => {
                proof {
                    lemma_sum_prefix(entries@, i + 1);
                }
                return Err(ContractError::ArithmeticOverflow);
            },
        }
        i += 1;
    }
    assert(entries@.take(i as int) =~= entries@);
    Ok(sum)
}

} // verus!
