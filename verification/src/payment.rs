//! What a request pays: the one amount in the fund's currency that is
//! attached to it.

use vstd::prelude::*;
use crate::error::ContractError;
use crate::msg::Coin;
use crate::msg::MessageInfo;

verus! {

/// What the attached funds pay in `denom`: nothing attached pays zero, one
/// coin of `denom` pays its amount, anything else is no payment.
pub open spec fn paid_in(funds: Seq<Coin>, denom: Seq<char>) -> Option<u128> {
    if funds.len() == 0 {
        Some(0)
    } else if funds.len() == 1 && funds[0].denom@ == denom {
        Some(funds[0].amount)
    } else {
        None
    }
}

/// Some attached coin is of another currency than `denom`.
pub open spec fn has_foreign_coin(funds: Seq<Coin>, denom: Seq<char>) -> bool {
    exists|i: int| 0 <= i < funds.len() && (#[trigger] funds[i]).denom@ != denom
}

#[verifier::external_type_specification]
#[verifier::external_body]
pub struct ExPaymentError(cw_utils::PaymentError);

/// Calls `cw_utils::may_pay` on the sender and the funds of `info`.
/// Trusted: with nothing attached it returns zero, with exactly one coin of
/// `denom` that coin's amount, and an error otherwise. With several coins
/// that are all of `denom` it does not return, so that input is left out.
#[verifier::external_body]
pub(crate) fn may_pay(info: &MessageInfo, denom: &str) -> (paid: Result<u128, cw_utils::PaymentError>)
    requires
        info.funds@.len() <= 1 || has_foreign_coin(info.funds@, denom@),
    ensures
        match paid {
            Ok(amount) => paid_in(info.funds@, denom@) == Some(amount),
            Err(_) => paid_in(info.funds@, denom@) is None,
        },
{
    let funds = info.funds.iter().map(|c| cosmwasm_std::Coin::new(c.amount, c.denom.clone())).collect();
    let outside = cosmwasm_std::MessageInfo {
        sender: cosmwasm_std::Addr::unchecked(info.sender.clone()),
        funds,
    };
    match cw_utils::may_pay(&outside, denom) {
        Ok(amount) => Ok(amount.u128()),
        Err(error) => Err(error),
    }
}

/// The index of the first attached coin that is not of `denom`, if any.
fn first_foreign_coin(funds: &Vec<Coin>, denom: &String) -> (found: Option<usize>)
    ensures
        match found {
            Some(i) => i < funds@.len() && funds@[i as int].denom@ != denom@
                && forall|j: int| 0 <= j < i ==> (#[trigger] funds@[j]).denom@ == denom@,
            None => forall|j: int| 0 <= j < funds@.len() ==> (#[trigger] funds@[j]).denom@ == denom@,
        },
{
    let mut i: usize = 0;
    while i < funds.len()
        invariant
            i <= funds@.len(),
            forall|j: int| 0 <= j < i ==> (#[trigger] funds@[j]).denom@ == denom@,
        decreases funds@.len() - i,
    {
        if funds[i].denom != *denom {
            return Some(i);
        }
        i += 1;
    }
    None
}

/// The amount that a request pays in the currency `denom`.
///
/// Nothing attached pays zero and one coin of `denom` pays its amount.
/// Anything else, a coin of another currency or more coins than one, is
/// refused with `CurrencyMismatch`.
pub fn attached_amount(info: &MessageInfo, denom: &String) -> (paid: Result<u128, ContractError>)
    ensures
        match paid_in(info.funds@, denom@) {
            Some(amount) => paid == Ok::<u128, ContractError>(amount),
            None => paid == Err::<u128, ContractError>(ContractError::CurrencyMismatch),
        },
{
    if info.funds.len() >= 2 && first_foreign_coin(&info.funds, denom).is_none() {
        return Err(ContractError::CurrencyMismatch);
    }
    match may_pay(info, denom.as_str()) {
        Ok(amount) => Ok(amount),
        Err(_) => Err(ContractError::CurrencyMismatch),
    }
}

} // verus!
