//! Requests, what the host reports with them, and what is handed back.

use vstd::prelude::*;
use crate::state::Donation;
use crate::state::FundDetails;

verus! {

/// The request that creates a fund. The goal is given as decimal text.
#[derive(Debug, PartialEq, Eq)]
pub struct InstantiateMsg {
    pub title: String,
    pub description: String,
    pub email: String,
    pub fullname: String,
    pub amount_to_be_raised: String,
    pub denom: String,
    pub image_url: String,
    pub owner: String,
}

/// A request that may change the fund or move what it holds.
#[derive(Debug, PartialEq, Eq)]
pub enum ExecuteMsg {
    Donate { message: String },
    Withdraw,
}

/// A request that only reads.
#[derive(Clone, Copy, Debug, PartialEq, Eq, Structural)]
pub enum QueryMsg {
    GetDonations,
    GetDetails,
    GetTotal,
}

/// The answer to a query.
#[derive(Debug, PartialEq, Eq)]
pub enum QueryResponse {
    Donations(Vec<Donation>),
    Details(FundDetails),
    Total(u128),
}

/// An amount of one currency.
#[derive(Debug, PartialEq, Eq)]
pub struct Coin {
    pub denom: String,
    pub amount: u128,
}

/// Who sent a request and what was attached to it.
#[derive(Debug, PartialEq, Eq)]
pub struct MessageInfo {
    pub sender: String,
    pub funds: Vec<Coin>,
}

/// What the host reports when it hands over a request: the height of the
/// block, and what it holds for the fund in the fund's currency.
#[derive(Clone, Copy, Debug, PartialEq, Eq, Structural)]
pub struct Env {
    pub height: u64,
    pub held_balance: u128,
}

/// What a donation request recorded: an amount of zero means that nothing
/// was entered in the ledger.
#[derive(Debug, PartialEq, Eq)]
pub struct Receipt {
    pub participant: String,
    pub amount: u128,
    pub message: String,
}

/// Something the host is asked to carry out together with the request.
#[derive(Debug, PartialEq, Eq)]
pub enum Instruction {
    /// Ask the reward service to issue a token of a collection.
    IssueReward {
        service: String,
        recipient: String,
        token_id: String,
        token_uri: String,
        collection: String,
    },
    /// Move an amount of one currency to an account.
    Transfer { to: String, amount: u128, denom: String },
}

/// The result of a request that succeeded.
#[derive(Debug, PartialEq, Eq)]
pub struct Response {
    pub receipt: Option<Receipt>,
    pub instructions: Vec<Instruction>,
}

} // verus!
