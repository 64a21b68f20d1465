//! The ways a request can fail.

use vstd::prelude::*;

verus! {

/// Why a request was refused. A refused request changes nothing.
#[derive(Debug, PartialEq, Eq)]
pub enum ContractError {
    /// The goal of a new fund is not an amount.
    InvalidAmount,
    /// What was attached to a donation is not one payment in the fund's currency.
    CurrencyMismatch,
    /// A withdrawal was asked for by someone other than the owner.
    Unauthorized,
    /// The fund has reached its goal and takes no more donations.
    FundraiserClosed,
    /// The fund does not take donations yet.
    FundraiserPending,
    /// The fund was canceled.
    FundraiserCanceled,
    /// A withdrawal was asked for before the fund holds its goal.
    WithdrawalNotExpectedError { expected_amount: u128, current_balance: u128, denom: String },
    /// The total of the ledger does not fit in 128 bits.
    ArithmeticOverflow,
    /// An acknowledgement answers an instruction that the fund never gave.
    InvalidReplyId,
}

} // verus!
