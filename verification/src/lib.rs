//! A single-fund crowdfunding ledger: the fund's lifecycle, its donation
//! ledger, the reward tiers and the rules that gate withdrawal.

pub mod contract;
pub mod decimal;
pub mod error;
pub mod ledger;
pub mod lifecycle;
pub mod msg;
pub mod payment;
pub mod reward;
pub mod state;
