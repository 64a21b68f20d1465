//! The requests a fund answers: creating it, donating to it, withdrawing
//! what it holds, and reading it.

use vstd::prelude::*;
use crate::decimal::amount_of_text;
use crate::decimal::parse_uint128;
use crate::error::ContractError;
use crate::ledger::lemma_sum_push;
use crate::ledger::total;
use crate::lifecycle::request_of;
use crate::lifecycle::step;
use crate::msg::Coin;
use crate::msg::Env;
use crate::msg::ExecuteMsg;
use crate::msg::InstantiateMsg;
use crate::msg::Instruction;
use crate::msg::MessageInfo;
use crate::msg::QueryMsg;
use crate::msg::QueryResponse;
use crate::msg::Receipt;
use crate::msg::Response;
use crate::payment::attached_amount;
use crate::payment::paid_in;
use crate::reward::issues_reward;
use crate::reward::RewardPolicy;
use crate::reward::RewardPolicyView;
use crate::reward::Tier;
use crate::state::ledger_sum;
use crate::state::Donation;
use crate::state::Fund;
use crate::state::FundDetails;
use crate::state::FundView;
use crate::state::Owner;
use crate::state::State;

verus! {

/// The fund that a request creates, once its goal has been read as `goal`:
/// open, with an empty ledger.
pub open spec fn created(msg: InstantiateMsg, goal: u128) -> FundView {
    FundView {
        details: FundDetails {
            owner: Owner { addr: msg.owner, email: msg.email, fullname: msg.fullname },
            title: msg.title,
            description: msg.description,
            amount_to_be_raised: goal,
            denom: msg.denom,
            image_url: msg.image_url,
        },
        donations: Seq::empty(),
        state: State::Open,
    }
}

/// Whether a donation is accepted, and with which amount.
///
/// A fund that is not open refuses with the error of its phase. An open
/// fund refuses what is not one payment in its currency, and a payment that
/// would take the total beyond 128 bits. A payment of zero is accepted.
pub open spec fn donation_verdict(fund: FundView, funds: Seq<Coin>) -> Result<u128, ContractError> {
    match fund.state {
        State::Closed => Err(ContractError::FundraiserClosed),
        State::Pending => Err(ContractError::FundraiserPending),
        State::Canceled => Err(ContractError::FundraiserCanceled),
        State::Open => match paid_in(funds, fund.details.denom@) {
            None => Err(ContractError::CurrencyMismatch),
            Some(paid) => if paid > 0 && ledger_sum(fund.donations) + paid > u128::MAX {
                Err(ContractError::ArithmeticOverflow)
            } else {
                Ok(paid)
            },
        },
    }
}

/// The fund after an accepted donation of `paid`. Zero changes nothing.
/// Anything more is entered at the end of the ledger, and the fund closes
/// if the total has then reached the goal.
pub open spec fn after_donation(
    fund: FundView,
    sender: String,
    message: String,
    paid: u128,
) -> FundView {
    if paid == 0 {
        fund
    } else {
        let donations = fund.donations.push(
            Donation { participant: sender, message, amount: paid },
        );
        FundView {
            details: fund.details,
            donations,
            state: if ledger_sum(donations) >= fund.details.amount_to_be_raised {
                State::Closed
            } else {
                fund.state
            },
        }
    }
}

/// The tier whose token is asked for with an accepted donation of `paid`.
pub open spec fn donation_reward(fund: FundView, policy: RewardPolicyView, paid: u128) -> Option<
    Tier,
> {
    if paid == 0 {
        None
    } else {
        policy.reward_for(fund.details.denom@, paid)
    }
}

/// `outcome` and `after` are what a donation request comes to on the fund
/// `before`.
///
/// A refused request gives the verdict's error and leaves the fund as it
/// was. An accepted one reports the sender, the amount and the message,
/// and carries the request for a reward token where one is earned and
/// nothing else.
pub open spec fn donated(
    before: FundView,
    after: FundView,
    policy: RewardPolicyView,
    height: u64,
    info: MessageInfo,
    message: String,
    outcome: Result<Response, ContractError>,
) -> bool {
    match donation_verdict(before, info.funds@) {
        Err(error) => outcome == Err::<Response, ContractError>(error) && after == before,
        Ok(paid) => {
            &&& after == after_donation(before, info.sender, message, paid)
            &&& outcome matches Ok(response)
            &&& response.receipt == Some(Receipt { participant: info.sender, amount: paid, message })
            &&& match donation_reward(before, policy, paid) {
                Some(tier) => {
                    &&& response.instructions@.len() == 1
                    &&& issues_reward(response.instructions@[0], policy, tier, info.sender, height)
                },
                None => response.instructions@.len() == 0,
            }
        },
    }
}

/// Whether a withdrawal is granted, and the transfer it then asks for.
///
/// Only the owner may withdraw, and only once the fund holds its goal. The
/// transfer moves all that is held to the owner.
pub open spec fn withdrawal_verdict(fund: FundView, sender: String, held_balance: u128) -> Result<
    Instruction,
    ContractError,
> {
    if sender@ != fund.details.owner.addr@ {
        Err(ContractError::Unauthorized)
    } else if held_balance < fund.details.amount_to_be_raised {
        Err(
            ContractError::WithdrawalNotExpectedError {
                expected_amount: fund.details.amount_to_be_raised,
                current_balance: held_balance,
                denom: fund.details.denom,
            },
        )
    } else {
        Ok(
            Instruction::Transfer {
                to: fund.details.owner.addr,
                amount: held_balance,
                denom: fund.details.denom,
            },
        )
    }
}

/// `outcome` is what a withdrawal request comes to: the verdict's error, or
/// a response that carries the verdict's transfer and nothing else.
pub open spec fn withdrew(
    fund: FundView,
    sender: String,
    held_balance: u128,
    outcome: Result<Response, ContractError>,
) -> bool {
    match withdrawal_verdict(fund, sender, held_balance) {
        Err(error) => outcome == Err::<Response, ContractError>(error),
        Ok(transfer) => {
            &&& outcome matches Ok(response)
            &&& response.receipt is None
            &&& response.instructions@ == seq![transfer]
        },
    }
}

/// The answer to the query for the total: the sum of the ledger, which is
/// computed anew each time.
pub open spec fn total_answer(fund: FundView) -> Result<u128, ContractError> {
    if ledger_sum(fund.donations) <= u128::MAX {
        Ok(ledger_sum(fund.donations) as u128)
    } else {
        Err(ContractError::ArithmeticOverflow)
    }
}

impl Fund {
    /// The total of the ledger.
    pub fn total(&self) -> (sum: Result<u128, ContractError>)
        ensures
            sum == total_answer(self@),
    {
        total(&self.donations)
    }

    /// Takes a donation of what is attached to the request.
    pub fn donate(
        &mut self,
        policy: &RewardPolicy,
        env: &Env,
        info: &MessageInfo,
        message: String,
    ) -> (outcome: Result<Response, ContractError>)
        ensures
            donated(old(self)@, final(self)@, policy@, env.height, *info, message, outcome),
            outcome is Err ==> *final(self) == *old(self),
            final(self).details == old(self).details,
    {
        match self.state {
            State::Open => {},
            State::Closed => {
                return Err(ContractError::FundraiserClosed);
            },
            State::Pending => {
                return Err(ContractError::FundraiserPending);
            },
            State::Canceled => {
                return Err(ContractError::FundraiserCanceled);
            },
        }
        let paid = match attached_amount(info, &self.details.denom) {
            Ok(amount) => amount,
            Err(error) => {
                return Err(error);
            },
        };
        let receipt = Receipt {
            participant: info.sender.clone(),
            amount: paid,
            message: message.clone(),
        };
        if paid == 0 {
            return Ok(Response { receipt: Some(receipt), instructions: Vec::new() });
        }
        let raised = match total(&self.donations) {
            Ok(sum) => sum,
            Err(error) => {
                return Err(error);
            },
        };
        let new_total = match raised.checked_add(paid) {
            Some(sum) => sum,
            None => {
                return Err(ContractError::ArithmeticOverflow);
            },
        };
        let donation = Donation { participant: info.sender.clone(), message, amount: paid };
        proof {
            lemma_sum_push(self.donations@, donation);
        }
        self.donations.push(donation);
        if new_total >= self.details.amount_to_be_raised {
            self.state = State::Closed;
        }
        let mut instructions: Vec<Instruction> = Vec::new();
        match policy.reward_for(&self.details.denom, paid) {
            Some(tier) => {
                instructions.push(policy.issue(tier, &info.sender, env.height));
            },
            None => {},
        }
        Ok(Response { receipt: Some(receipt), instructions })
    }

    /// Hands all that is held to the owner, once the fund holds its goal.
    pub fn withdraw(&self, sender: &String, held_balance: u128) -> (outcome: Result<
        Response,
        ContractError,
    >)
        ensures
            withdrew(self@, *sender, held_balance, outcome),
    {
        if *sender != self.details.owner.addr {
            return Err(ContractError::Unauthorized);
        }
        if held_balance < self.details.amount_to_be_raised {
            return Err(
                ContractError::WithdrawalNotExpectedError {
                    expected_amount: self.details.amount_to_be_raised,
                    current_balance: held_balance,
                    denom: self.details.denom.clone(),
                },
            );
        }
        let transfer = Instruction::Transfer {
            to: self.details.owner.addr.clone(),
            amount: held_balance,
            denom: self.details.denom.clone(),
        };
        let mut instructions: Vec<Instruction> = Vec::new();
        instructions.push(transfer);
        assert(instructions@ =~= seq![transfer]);
        Ok(Response { receipt: None, instructions })
    }
}

/// Creates a fund: open, with an empty ledger, and with the goal that the
/// request gives as decimal text. Text that is no amount is refused with
/// `InvalidAmount`.
pub fn instantiate(msg: InstantiateMsg) -> (outcome: Result<Fund, ContractError>)
    ensures
        match amount_of_text(msg.amount_to_be_raised@) {
            Some(goal) => outcome matches Ok(fund) && fund@ == created(msg, goal),
            None => outcome == Err::<Fund, ContractError>(ContractError::InvalidAmount),
        },
{
    let goal = match parse_uint128(msg.amount_to_be_raised.as_str()) {
        Ok(goal) => goal,
        Err(_) => {
            return Err(ContractError::InvalidAmount);
        },
    };
    Ok(
        Fund {
            details: FundDetails {
                owner: Owner { addr: msg.owner, email: msg.email, fullname: msg.fullname },
                title: msg.title,
                description: msg.description,
                amount_to_be_raised: goal,
                denom: msg.denom,
                image_url: msg.image_url,
            },
            donations: Vec::new(),
            state: State::Open,
        },
    )
}

/// The identifier under which the request for a reward token is given.
pub const REWARD_REPLY_ID: u64 = 1;

/// Takes note that an instruction was carried out. An acknowledgement
/// decides nothing: it is accepted, with an empty response, where it
/// answers the request for a reward token, and refused otherwise.
pub fn reply(id: u64) -> (outcome: Result<Response, ContractError>)
    ensures
        id == REWARD_REPLY_ID ==> (outcome matches Ok(response) && response.receipt is None
            && response.instructions@.len() == 0),
        id != REWARD_REPLY_ID ==> outcome == Err::<Response, ContractError>(
            ContractError::InvalidReplyId,
        ),
{
    if id != REWARD_REPLY_ID {
        return Err(ContractError::InvalidReplyId);
    }
    Ok(Response { receipt: None, instructions: Vec::new() })
}

/// Carries out a request on the fund.
///
/// A donation takes what is attached to the request; a withdrawal is
/// judged by what the host holds for the fund, and leaves the fund as it is.
pub fn execute(
    fund: &mut Fund,
    policy: &RewardPolicy,
    env: &Env,
    info: &MessageInfo,
    msg: ExecuteMsg,
) -> (outcome: Result<Response, ContractError>)
    ensures
        match msg {
            ExecuteMsg::Donate { message } => donated(
                old(fund)@,
                final(fund)@,
                policy@,
                env.height,
                *info,
                message,
                outcome,
            ),
            ExecuteMsg::Withdraw => withdrew(old(fund)@, info.sender, env.held_balance, outcome)
                && *final(fund) == *old(fund),
        },
        final(fund)@ == step(old(fund)@, request_of(*env, *info, msg)),
        outcome is Err ==> *final(fund) == *old(fund),
        final(fund).details == old(fund).details,
{
    match msg {
        ExecuteMsg::Donate { message } => fund.donate(policy, env, info, message),
        ExecuteMsg::Withdraw => fund.withdraw(&info.sender, env.held_balance),
    }
}

/// Answers a query. Nothing is changed, and the total is summed from the
/// ledger each time.
pub fn query(fund: &Fund, msg: QueryMsg) -> (answer: Result<QueryResponse, ContractError>)
    ensures
        match msg {
            QueryMsg::GetDonations => answer matches Ok(QueryResponse::Donations(list))
                && list@ == fund@.donations,
            QueryMsg::GetDetails => answer matches Ok(QueryResponse::Details(details))
                && details == fund.details,
            QueryMsg::GetTotal => match total_answer(fund@) {
                Ok(sum) => answer == Ok::<QueryResponse, ContractError>(QueryResponse::Total(sum)),
                Err(error) => answer == Err::<QueryResponse, ContractError>(error),
            },
        },
{
    match msg {
        QueryMsg::GetDonations => {
            let list = fund.donations.clone();
            assert(list@ =~= fund.donations@);
            Ok(QueryResponse::Donations(list))
        },
        QueryMsg::GetDetails => Ok(QueryResponse::Details(fund.details.clone())),
        QueryMsg::GetTotal => match fund.total() {
            Ok(sum) => Ok(QueryResponse::Total(sum)),
            Err(error) => Err(error),
        },
    }
}

} // verus!
