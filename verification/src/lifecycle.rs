//! The fund over a sequence of requests: what each request does to it, and
//! what holds of every fund that requests have brought about.

use vstd::prelude::*;
use crate::contract::after_donation;
use crate::contract::created;
use crate::contract::donation_verdict;
use crate::contract::total_answer;
use crate::contract::withdrawal_verdict;
use crate::error::ContractError;
use crate::ledger::lemma_positive_push;
use crate::ledger::lemma_sum_push;
use crate::msg::Coin;
use crate::msg::Env;
use crate::msg::ExecuteMsg;
use crate::msg::MessageInfo;
use crate::msg::InstantiateMsg;
use crate::msg::Instruction;
use crate::payment::has_foreign_coin;
use crate::payment::paid_in;
use crate::state::ledger_sum;
use crate::state::Donation;
use crate::state::FundView;
use crate::state::State;

verus! {

/// A request as the fund sees it.
pub enum Request {
    Donate { sender: String, funds: Seq<Coin>, message: String },
    Withdraw { sender: String, held_balance: u128 },
}

/// The request that the host hands over with `env` and `info`.
pub open spec fn request_of(env: Env, info: MessageInfo, msg: ExecuteMsg) -> Request {
    match msg {
        ExecuteMsg::Donate { message } => Request::Donate {
            sender: info.sender,
            funds: info.funds@,
            message,
        },
        ExecuteMsg::Withdraw => Request::Withdraw {
            sender: info.sender,
            held_balance: env.held_balance,
        },
    }
}

/// The fund after one request. A refused donation and a withdrawal, granted
/// or not, leave it as it was.
pub open spec fn step(fund: FundView, request: Request) -> FundView {
    match request {
        Request::Donate { sender, funds, message } => match donation_verdict(fund, funds) {
            Ok(paid) => after_donation(fund, sender, message, paid),
            Err(_) => fund,
        },
        Request::Withdraw { .. } => fund,
    }
}

/// The fund after a sequence of requests, carried out in order.
pub open spec fn run(fund: FundView, requests: Seq<Request>) -> FundView
    decreases requests.len(),
{
    if requests.len() == 0 {
        fund
    } else {
        step(run(fund, requests.drop_last()), requests.last())
    }
}

/// The ledger `later` begins with all of the ledger `earlier`, in order.
pub open spec fn extends(later: Seq<Donation>, earlier: Seq<Donation>) -> bool {
    earlier.len() <= later.len() && later.take(earlier.len() as int) == earlier
}

/// A new fund is well formed.
pub proof fn lemma_created_well_formed(msg: InstantiateMsg, goal: u128)
    ensures
        created(msg, goal).well_formed(),
        created(msg, goal).state == State::Open,
        ledger_sum(created(msg, goal).donations) == 0,
{
}

/// One request keeps a well-formed fund well formed, never touches the
/// details, only adds to the end of the ledger, and moves the phase, if at
/// all, from open to closed.
pub proof fn lemma_step(fund: FundView, request: Request)
    ensures
        fund.well_formed() ==> step(fund, request).well_formed(),
        step(fund, request).details == fund.details,
        extends(step(fund, request).donations, fund.donations),
        step(fund, request).state == fund.state || (fund.state == State::Open && step(
            fund,
            request,
        ).state == State::Closed),
{
    let next = step(fund, request);
    assert(fund.donations.take(fund.donations.len() as int) =~= fund.donations);
    match request {
        Request::Donate { sender, funds, message } => {
            match donation_verdict(fund, funds) {
                Ok(paid) => {
                    if paid > 0 {
                        let entry = Donation { participant: sender, message, amount: paid };
                        lemma_sum_push(fund.donations, entry);
                        assert(next.donations.take(fund.donations.len() as int)
                            =~= fund.donations);
                        if fund.well_formed() {
                            lemma_positive_push(fund.donations, entry);
                        }
                    }
                },
                Err(_) => {},
            }
        },
        Request::Withdraw { .. } => {},
    }
}

/// What one request keeps, every sequence of requests keeps.
pub proof fn lemma_run(fund: FundView, requests: Seq<Request>)
    ensures
        fund.well_formed() ==> run(fund, requests).well_formed(),
        run(fund, requests).details == fund.details,
        extends(run(fund, requests).donations, fund.donations),
        run(fund, requests).state == fund.state || (fund.state == State::Open && run(
            fund,
            requests,
        ).state == State::Closed),
    decreases requests.len(),
{
    if requests.len() == 0 {
        assert(fund.donations.take(fund.donations.len() as int) =~= fund.donations);
    } else {
        let before = run(fund, requests.drop_last());
        lemma_run(fund, requests.drop_last());
        lemma_step(before, requests.last());
        let after = step(before, requests.last());
        assert(after.donations.take(fund.donations.len() as int) =~= before.donations.take(
            fund.donations.len() as int,
        )) by {
            assert(after.donations.take(before.donations.len() as int) == before.donations);
        }
    }
}

/// Whatever requests a well-formed fund has answered, the total that a
/// query reports is the sum of the amounts of the ledger that a query
/// lists.
pub proof fn lemma_total_is_sum_of_ledger(fund: FundView, requests: Seq<Request>)
    requires
        fund.well_formed(),
    ensures
        total_answer(run(fund, requests)) == Ok::<u128, ContractError>(
            ledger_sum(run(fund, requests).donations) as u128,
        ),
        ledger_sum(run(fund, requests).donations) <= u128::MAX,
{
    lemma_run(fund, requests);
}

/// A closed fund refuses every donation, and no sequence of requests
/// reopens it or changes its ledger.
pub proof fn lemma_closed_is_final(fund: FundView, requests: Seq<Request>)
    requires
        fund.state == State::Closed,
    ensures
        run(fund, requests).state == State::Closed,
        run(fund, requests).donations == fund.donations,
        forall|funds: Seq<Coin>| #[trigger]
            donation_verdict(fund, funds) == Err::<u128, ContractError>(
                ContractError::FundraiserClosed,
            ),
    decreases requests.len(),
{
    if requests.len() > 0 {
        lemma_closed_is_final(fund, requests.drop_last());
    }
}

/// The donation that takes the total to the goal is itself entered in the
/// ledger, and closes the fund.
pub proof fn lemma_goal_closes(fund: FundView, sender: String, funds: Seq<Coin>, message: String)
    requires
        donation_verdict(fund, funds) matches Ok(paid) && paid > 0 && ledger_sum(fund.donations)
            + paid >= fund.details.amount_to_be_raised,
    ensures
        step(fund, Request::Donate { sender, funds, message }).state == State::Closed,
        step(fund, Request::Donate { sender, funds, message }).donations.len()
            == fund.donations.len() + 1,
{
    let paid = donation_verdict(fund, funds)->Ok_0;
    lemma_sum_push(fund.donations, Donation { participant: sender, message, amount: paid });
}

/// A donation of nothing changes neither the ledger nor the total, and an
/// open fund accepts it.
pub proof fn lemma_zero_donation(fund: FundView, sender: String, funds: Seq<Coin>, message: String)
    requires
        paid_in(funds, fund.details.denom@) == Some(0u128),
    ensures
        step(fund, Request::Donate { sender, funds, message }) == fund,
        fund.state == State::Open ==> donation_verdict(fund, funds) == Ok::<u128, ContractError>(0),
{
}

/// A donation with a coin of another currency than the fund's is refused
/// and enters nothing in the ledger; an open fund refuses it with
/// `CurrencyMismatch`.
pub proof fn lemma_foreign_currency(
    fund: FundView,
    sender: String,
    funds: Seq<Coin>,
    message: String,
)
    requires
        has_foreign_coin(funds, fund.details.denom@),
    ensures
        donation_verdict(fund, funds) is Err,
        fund.state == State::Open ==> donation_verdict(fund, funds) == Err::<u128, ContractError>(
            ContractError::CurrencyMismatch,
        ),
        step(fund, Request::Donate { sender, funds, message }) == fund,
{
}

/// Withdrawal is for the owner alone, whatever is held; the owner is
/// refused while less than the goal is held; and a granted withdrawal moves
/// all that is held to the owner, so that nothing is left.
pub proof fn lemma_withdrawal_gating(fund: FundView, sender: String, held_balance: u128)
    ensures
        sender@ != fund.details.owner.addr@ ==> withdrawal_verdict(fund, sender, held_balance)
            == Err::<Instruction, ContractError>(ContractError::Unauthorized),
        sender@ == fund.details.owner.addr@ && held_balance < fund.details.amount_to_be_raised
            ==> withdrawal_verdict(fund, sender, held_balance) == Err::<Instruction, ContractError>(
            ContractError::WithdrawalNotExpectedError {
                expected_amount: fund.details.amount_to_be_raised,
                current_balance: held_balance,
                denom: fund.details.denom,
            },
        ),
        sender@ == fund.details.owner.addr@ && held_balance >= fund.details.amount_to_be_raised
            ==> withdrawal_verdict(fund, sender, held_balance) == Ok::<Instruction, ContractError>(
            Instruction::Transfer {
                to: fund.details.owner.addr,
                amount: held_balance,
                denom: fund.details.denom,
            },
        ),
        withdrawal_verdict(fund, sender, held_balance) matches Ok(
            Instruction::Transfer { amount, .. },
        ) ==> held_balance - amount == 0,
        withdrawal_verdict(fund, sender, held_balance) is Ok <==> sender@
            == fund.details.owner.addr@ && held_balance >= fund.details.amount_to_be_raised,
        step(fund, Request::Withdraw { sender, held_balance }) == fund,
{
}

} // verus!
