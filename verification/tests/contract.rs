use cosmwasm_std::testing::MockApi;
use crowdfund::contract::execute;
use crowdfund::contract::instantiate;
use crowdfund::contract::query;
use crowdfund::error::ContractError;
use crowdfund::msg::Coin;
use crowdfund::msg::Env;
use crowdfund::msg::ExecuteMsg;
use crowdfund::msg::InstantiateMsg;
use crowdfund::msg::Instruction;
use crowdfund::msg::MessageInfo;
use crowdfund::msg::QueryMsg;
use crowdfund::msg::QueryResponse;
use crowdfund::msg::Receipt;
use crowdfund::reward::RewardPolicy;
use crowdfund::state::Donation;
use crowdfund::state::Fund;
use crowdfund::state::FundDetails;
use crowdfund::state::Owner;
use crowdfund::state::State;

const USER: &str = "USER";
const NATIVE_DENOM: &str = "uxion";
const SERVICE: &str = "xion1jgve7p9sx5wmm9x7dk6fmwawed7eekt2n7vj8jvhnhjcczfepmasf7p8vq";
const COLLECTION: &str = "xion1rtp30fh4pltea8h8fkxalqeuztddaxgxpnjxam2d786axxthe0tqq5knek";

fn user() -> String {
    MockApi::default().addr_make(USER).to_string()
}

fn policy() -> RewardPolicy {
    RewardPolicy::new(
        1000000,
        vec![String::from(NATIVE_DENOM)],
        String::from(SERVICE),
        String::from(COLLECTION),
    )
    .unwrap()
}

fn instantiate_msg(goal: &str) -> InstantiateMsg {
    InstantiateMsg {
        email: String::from("example@email.com"),
        fullname: String::from("John Doe"),
        title: String::from("Example crowdfund"),
        description: String::from("need some funds"),
        amount_to_be_raised: String::from(goal),
        denom: NATIVE_DENOM.into(),
        image_url: String::new(),
        owner: user(),
    }
}

fn proper_instantiate() -> Fund {
    instantiate(instantiate_msg(&(5 * 1000000).to_string())).unwrap()
}

fn info(sender: &str, amount: u128, denom: &str) -> MessageInfo {
    MessageInfo { sender: String::from(sender), funds: vec![Coin { amount, denom: denom.into() }] }
}

fn bare(sender: &str) -> MessageInfo {
    MessageInfo { sender: String::from(sender), funds: vec![] }
}

fn at(height: u64, held_balance: u128) -> Env {
    Env { height, held_balance }
}

fn donate_msg(message: &str) -> ExecuteMsg {
    ExecuteMsg::Donate { message: message.into() }
}

fn total_of(fund: &Fund) -> u128 {
    match query(fund, QueryMsg::GetTotal {}) {
        Ok(QueryResponse::Total(total)) => total,
        other => panic!("no total: {:?}", other),
    }
}

fn donations_of(fund: &Fund) -> Vec<Donation> {
    match query(fund, QueryMsg::GetDonations {}) {
        Ok(QueryResponse::Donations(list)) => list,
        other => panic!("no list: {:?}", other),
    }
}

#[test]
fn donate() {
    let mut fund = proper_instantiate();

    let msg = ExecuteMsg::Donate { message: "Enjoy!".into() };
    let x: u128 = 5 * 1000000;
    let resp = execute(&mut fund, &policy(), &at(1, x), &info(&user(), x, NATIVE_DENOM), msg);
    println!("donate response: {:?}", resp);
    assert!(resp.is_ok());
    assert_eq!(total_of(&fund), x);

    let resp = execute(&mut fund, &policy(), &at(2, x), &bare(&user()), ExecuteMsg::Withdraw {});
    println!("withdraw response: {:?}", resp);
    assert!(resp.is_ok());
}

#[test]
fn query_details() {
    let fund = proper_instantiate();
    let details = match query(&fund, QueryMsg::GetDetails {}).unwrap() {
        QueryResponse::Details(details) => details,
        other => panic!("no details: {:?}", other),
    };

    assert_eq!(
        details,
        FundDetails {
            owner: Owner {
                email: String::from("example@email.com"),
                fullname: String::from("John Doe"),
                addr: user(),
            },
            title: String::from("Example crowdfund"),
            description: String::from("need some funds"),
            amount_to_be_raised: 5 * 1000000,
            denom: NATIVE_DENOM.into(),
            image_url: String::new(),
        }
    );
}

#[test]
fn new_fund_is_open_and_empty() {
    let fund = proper_instantiate();
    assert_eq!(fund.state, State::Open);
    assert!(fund.donations.is_empty());
    assert_eq!(total_of(&fund), 0);
    assert!(donations_of(&fund).is_empty());
}

#[test]
fn goal_that_is_no_amount_is_refused() {
    for goal in ["", "abc", "-1", "+", "5 ", " 5", "1_000", "1.5", "0x10", "١٢٣"] {
        assert_eq!(instantiate(instantiate_msg(goal)), Err(ContractError::InvalidAmount), "{goal:?}");
    }
    let too_large = "340282366920938463463374607431768211456";
    assert_eq!(instantiate(instantiate_msg(too_large)), Err(ContractError::InvalidAmount));
}

#[test]
fn goal_is_read_as_decimal() {
    let read = |goal: &str| instantiate(instantiate_msg(goal)).unwrap().details.amount_to_be_raised;
    assert_eq!(read("0"), 0);
    assert_eq!(read("5000000"), 5000000);
    assert_eq!(read("+7"), 7);
    assert_eq!(read("0042"), 42);
    assert_eq!(read("340282366920938463463374607431768211455"), u128::MAX);
}

#[test]
fn scenario_goal_of_five() {
    let mut fund = instantiate(instantiate_msg("5")).unwrap();
    let donor = "donor";

    let resp = execute(&mut fund, &policy(), &at(10, 5), &info(donor, 5, NATIVE_DENOM), donate_msg("hi"));
    let resp = resp.unwrap();
    assert_eq!(
        resp.receipt,
        Some(Receipt { participant: donor.into(), amount: 5, message: "hi".into() })
    );
    assert!(resp.instructions.is_empty());
    assert_eq!(
        donations_of(&fund),
        vec![Donation { participant: donor.into(), message: "hi".into(), amount: 5 }]
    );
    assert_eq!(total_of(&fund), 5);
    assert_eq!(fund.state, State::Closed);

    let second = execute(&mut fund, &policy(), &at(11, 5), &info(donor, 1, NATIVE_DENOM), donate_msg(""));
    assert_eq!(second, Err(ContractError::FundraiserClosed));
    assert_eq!(donations_of(&fund).len(), 1);
    assert_eq!(total_of(&fund), 5);

    let resp = execute(&mut fund, &policy(), &at(12, 5), &bare(&user()), ExecuteMsg::Withdraw {});
    assert_eq!(
        resp.unwrap().instructions,
        vec![Instruction::Transfer { to: user(), amount: 5, denom: NATIVE_DENOM.into() }]
    );
}

#[test]
fn fund_stays_open_below_the_goal() {
    let mut fund = instantiate(instantiate_msg("10")).unwrap();
    execute(&mut fund, &policy(), &at(1, 0), &info("a", 4, NATIVE_DENOM), donate_msg("one")).unwrap();
    assert_eq!(fund.state, State::Open);
    execute(&mut fund, &policy(), &at(2, 0), &info("b", 5, NATIVE_DENOM), donate_msg("two")).unwrap();
    assert_eq!(fund.state, State::Open);
    assert_eq!(total_of(&fund), 9);
    execute(&mut fund, &policy(), &at(3, 0), &info("c", 1, NATIVE_DENOM), donate_msg("three")).unwrap();
    assert_eq!(fund.state, State::Closed);
    assert_eq!(total_of(&fund), 10);
    let list = donations_of(&fund);
    assert_eq!(list.len(), 3);
    assert_eq!(list[0].participant, "a");
    assert_eq!(list[1].participant, "b");
    assert_eq!(list[2], Donation { participant: "c".into(), message: "three".into(), amount: 1 });
}

#[test]
fn donation_beyond_the_goal_is_taken_whole() {
    let mut fund = instantiate(instantiate_msg("10")).unwrap();
    execute(&mut fund, &policy(), &at(1, 0), &info("a", 25, NATIVE_DENOM), donate_msg("")).unwrap();
    assert_eq!(fund.state, State::Closed);
    assert_eq!(total_of(&fund), 25);
}

#[test]
fn total_equals_sum_of_listed_amounts() {
    let mut fund = instantiate(instantiate_msg("1000")).unwrap();
    let amounts: [u128; 6] = [3, 0, 40, 7, 0, 500];
    for (i, amount) in amounts.iter().enumerate() {
        let attached = if i % 2 == 0 { info("d", *amount, NATIVE_DENOM) } else { info("d", *amount, "other") };
        let _ = execute(&mut fund, &policy(), &at(i as u64, 0), &attached, donate_msg("m"));
        let _ = execute(&mut fund, &policy(), &at(i as u64, 0), &bare("d"), ExecuteMsg::Withdraw {});
        let listed: u128 = donations_of(&fund).iter().map(|d| d.amount).sum();
        assert_eq!(total_of(&fund), listed);
        assert!(donations_of(&fund).iter().all(|d| d.amount > 0));
    }
    assert_eq!(total_of(&fund), 43);
}

#[test]
fn closed_fund_takes_nothing_more() {
    let mut fund = instantiate(instantiate_msg("5")).unwrap();
    execute(&mut fund, &policy(), &at(1, 0), &info("a", 5, NATIVE_DENOM), donate_msg("")).unwrap();
    assert_eq!(fund.state, State::Closed);
    for amount in [0u128, 1, 5, 1000000000] {
        let attached = if amount == 0 { bare("b") } else { info("b", amount, NATIVE_DENOM) };
        let resp = execute(&mut fund, &policy(), &at(2, 0), &attached, donate_msg("late"));
        assert_eq!(resp, Err(ContractError::FundraiserClosed));
        assert_eq!(fund.state, State::Closed);
        assert_eq!(donations_of(&fund).len(), 1);
    }
}

#[test]
fn pending_and_canceled_funds_refuse_donations() {
    let mut fund = proper_instantiate();
    fund.state = State::Pending;
    let resp = execute(&mut fund, &policy(), &at(1, 0), &info("a", 5, NATIVE_DENOM), donate_msg(""));
    assert_eq!(resp, Err(ContractError::FundraiserPending));
    fund.state = State::Canceled;
    let resp = execute(&mut fund, &policy(), &at(1, 0), &info("a", 5, NATIVE_DENOM), donate_msg(""));
    assert_eq!(resp, Err(ContractError::FundraiserCanceled));
    assert!(fund.donations.is_empty());
    assert_eq!(fund.state, State::Canceled);
}

#[test]
fn zero_donation_is_a_no_op() {
    let mut fund = proper_instantiate();
    execute(&mut fund, &policy(), &at(1, 0), &info("a", 9, NATIVE_DENOM), donate_msg("first")).unwrap();
    let before = donations_of(&fund);

    let resp = execute(&mut fund, &policy(), &at(2, 0), &bare("b"), donate_msg("nothing")).unwrap();
    assert_eq!(
        resp.receipt,
        Some(Receipt { participant: "b".into(), amount: 0, message: "nothing".into() })
    );
    assert!(resp.instructions.is_empty());
    assert_eq!(donations_of(&fund), before);
    assert_eq!(total_of(&fund), 9);

    let resp = execute(&mut fund, &policy(), &at(3, 0), &info("b", 0, NATIVE_DENOM), donate_msg("zero"));
    assert_eq!(resp.unwrap().receipt.unwrap().amount, 0);
    assert_eq!(donations_of(&fund), before);
    assert_eq!(total_of(&fund), 9);
    assert_eq!(fund.state, State::Open);
}

#[test]
fn zero_donation_does_not_close_a_fund_without_goal() {
    let mut fund = instantiate(instantiate_msg("0")).unwrap();
    execute(&mut fund, &policy(), &at(1, 0), &bare("a"), donate_msg("")).unwrap();
    assert_eq!(fund.state, State::Open);
    execute(&mut fund, &policy(), &at(2, 0), &info("a", 1, NATIVE_DENOM), donate_msg("")).unwrap();
    assert_eq!(fund.state, State::Closed);
}

#[test]
fn other_currency_is_refused() {
    let mut fund = proper_instantiate();
    let resp = execute(&mut fund, &policy(), &at(1, 0), &info("a", 5000000, "uatom"), donate_msg(""));
    assert_eq!(resp, Err(ContractError::CurrencyMismatch));
    assert!(donations_of(&fund).is_empty());
    assert_eq!(total_of(&fund), 0);
    assert_eq!(fund.state, State::Open);

    let mixed = MessageInfo {
        sender: "a".into(),
        funds: vec![
            Coin { denom: NATIVE_DENOM.into(), amount: 5000000 },
            Coin { denom: "uatom".into(), amount: 1 },
        ],
    };
    let resp = execute(&mut fund, &policy(), &at(1, 0), &mixed, donate_msg(""));
    assert_eq!(resp, Err(ContractError::CurrencyMismatch));
    assert!(donations_of(&fund).is_empty());
}

#[test]
fn withdrawal_gating() {
    let fund = proper_instantiate();
    let mut fund = fund;
    let owner = user();

    let granted = execute(&mut fund, &policy(), &at(1, 5000000), &bare(&owner), ExecuteMsg::Withdraw {});
    let granted = granted.unwrap();
    assert_eq!(granted.receipt, None);
    assert_eq!(
        granted.instructions,
        vec![Instruction::Transfer { to: owner.clone(), amount: 5000000, denom: NATIVE_DENOM.into() }]
    );

    for held in [0u128, 4999999, 5000000, u128::MAX] {
        let resp = execute(&mut fund, &policy(), &at(1, held), &bare("stranger"), ExecuteMsg::Withdraw {});
        assert_eq!(resp, Err(ContractError::Unauthorized));
    }

    let early = execute(&mut fund, &policy(), &at(1, 4999999), &bare(&owner), ExecuteMsg::Withdraw {});
    assert_eq!(
        early,
        Err(ContractError::WithdrawalNotExpectedError {
            expected_amount: 5000000,
            current_balance: 4999999,
            denom: NATIVE_DENOM.into(),
        })
    );
}

#[test]
fn withdrawal_takes_all_that_is_held_and_ignores_the_phase() {
    let mut fund = proper_instantiate();
    let owner = user();
    for state in [State::Open, State::Closed, State::Pending, State::Canceled] {
        fund.state = state;
        let resp = fund.withdraw(&owner, 7500000).unwrap();
        assert_eq!(
            resp.instructions,
            vec![Instruction::Transfer { to: owner.clone(), amount: 7500000, denom: NATIVE_DENOM.into() }]
        );
        assert_eq!(fund.state, state);
    }
    let drained = fund.withdraw(&owner, 0);
    assert_eq!(
        drained,
        Err(ContractError::WithdrawalNotExpectedError {
            expected_amount: 5000000,
            current_balance: 0,
            denom: NATIVE_DENOM.into(),
        })
    );
}

#[test]
fn total_that_overflows_is_an_error() {
    let mut fund = instantiate(instantiate_msg("340282366920938463463374607431768211455")).unwrap();
    execute(&mut fund, &policy(), &at(1, 0), &info("a", u128::MAX - 1, NATIVE_DENOM), donate_msg("")).unwrap();
    assert_eq!(fund.state, State::Open);
    let resp = execute(&mut fund, &policy(), &at(2, 0), &info("b", 2, NATIVE_DENOM), donate_msg(""));
    assert_eq!(resp, Err(ContractError::ArithmeticOverflow));
    assert_eq!(donations_of(&fund).len(), 1);
    assert_eq!(total_of(&fund), u128::MAX - 1);
    execute(&mut fund, &policy(), &at(3, 0), &info("b", 1, NATIVE_DENOM), donate_msg("")).unwrap();
    assert_eq!(total_of(&fund), u128::MAX);
    assert_eq!(fund.state, State::Closed);
}

#[test]
fn ledger_that_does_not_sum_is_reported() {
    let mut fund = proper_instantiate();
    fund.donations.push(Donation { participant: "a".into(), message: "".into(), amount: u128::MAX });
    fund.donations.push(Donation { participant: "b".into(), message: "".into(), amount: 1 });
    assert_eq!(fund.total(), Err(ContractError::ArithmeticOverflow));
    assert_eq!(query(&fund, QueryMsg::GetTotal {}), Err(ContractError::ArithmeticOverflow));
    let resp = execute(&mut fund, &policy(), &at(1, 0), &info("c", 1, NATIVE_DENOM), donate_msg(""));
    assert_eq!(resp, Err(ContractError::ArithmeticOverflow));
    assert_eq!(fund.donations.len(), 2);
}

#[test]
fn refused_request_changes_nothing() {
    let mut fund = proper_instantiate();
    execute(&mut fund, &policy(), &at(1, 0), &info("a", 9, NATIVE_DENOM), donate_msg("kept")).unwrap();
    let details = fund.details.clone();
    let list = fund.donations.clone();
    let _ = execute(&mut fund, &policy(), &at(2, 0), &info("a", 9, "other"), donate_msg(""));
    let _ = execute(&mut fund, &policy(), &at(2, 0), &bare("a"), ExecuteMsg::Withdraw {});
    assert_eq!(fund.details, details);
    assert_eq!(fund.donations, list);
    assert_eq!(fund.state, State::Open);
}

#[test]
fn acknowledgement_of_the_reward_request_is_accepted() {
    let resp = crowdfund::contract::reply(1).unwrap();
    assert_eq!(resp.receipt, None);
    assert!(resp.instructions.is_empty());
    assert_eq!(crowdfund::contract::reply(0), Err(ContractError::InvalidReplyId));
    assert_eq!(crowdfund::contract::reply(2), Err(ContractError::InvalidReplyId));
}
