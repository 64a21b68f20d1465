use crowdfund::error::ContractError;
use crowdfund::msg::Coin;
use crowdfund::msg::MessageInfo;
use crowdfund::payment::attached_amount;

fn request(funds: Vec<(&str, u128)>) -> MessageInfo {
    MessageInfo {
        sender: "sender".into(),
        funds: funds.into_iter().map(|(denom, amount)| Coin { denom: denom.into(), amount }).collect(),
    }
}

fn paid(funds: Vec<(&str, u128)>) -> Result<u128, ContractError> {
    attached_amount(&request(funds), &String::from("uxion"))
}

#[test]
fn nothing_attached_pays_zero() {
    assert_eq!(paid(vec![]), Ok(0));
}

#[test]
fn one_coin_of_the_currency_pays_its_amount() {
    assert_eq!(paid(vec![("uxion", 5000000)]), Ok(5000000));
    assert_eq!(paid(vec![("uxion", 0)]), Ok(0));
    assert_eq!(paid(vec![("uxion", u128::MAX)]), Ok(u128::MAX));
}

#[test]
fn one_coin_of_another_currency_is_a_mismatch() {
    assert_eq!(paid(vec![("uatom", 5)]), Err(ContractError::CurrencyMismatch));
    assert_eq!(paid(vec![("UXION", 5)]), Err(ContractError::CurrencyMismatch));
    assert_eq!(paid(vec![("", 5)]), Err(ContractError::CurrencyMismatch));
}

#[test]
fn several_coins_are_a_mismatch() {
    assert_eq!(paid(vec![("uxion", 5), ("uatom", 1)]), Err(ContractError::CurrencyMismatch));
    assert_eq!(paid(vec![("uatom", 1), ("uxion", 5)]), Err(ContractError::CurrencyMismatch));
    assert_eq!(paid(vec![("uxion", 5), ("uxion", 1)]), Err(ContractError::CurrencyMismatch));
    assert_eq!(paid(vec![("uxion", 5), ("uxion", 1), ("uxion", 2)]), Err(ContractError::CurrencyMismatch));
}
