use cw20_adapter::common::{AdapterMsg, Coin, Env, MessageInfo, Response, TokenInfo};
use cw20_adapter::error::ContractError;
use cw20_adapter::execute_register::handle_register_msg;

const CONTRACT_ADDRESS: &str = "inj1pvrwmjuusn9wh34j7y520g8gumuy9xtlt6xtzw";
const CW_20_ADDRESS: &str = "inj1pjcw9hhx8kf462qtgu37p7l7shyqgpfr82r6em";
const SENDER: &str = "inj1n0qvel0zfmsxu3q8q23xzjvuwfxn0ydlhgyh7h";
const MOCK_CONTRACT_ADDRESS: &str = "cosmos2contract";

fn coin(amount: u128, denom: &str) -> Coin {
    Coin { denom: denom.to_string(), amount }
}

fn mock_info(sender: &str, funds: &[Coin]) -> MessageInfo {
    MessageInfo { sender: sender.to_string(), funds: funds.to_vec() }
}

fn env_at(address: &str) -> Env {
    Env { contract_address: address.to_string() }
}

/// The chain's default fee for a new denom: 10 inj.
fn default_fee() -> Result<Vec<Coin>, ContractError> {
    Ok(vec![coin(10, "inj")])
}

fn failing_fee() -> Result<Vec<Coin>, ContractError> {
    Err(ContractError::Std("Generic error: custom error".to_string()))
}

fn cw20_info(_addr: &String) -> Result<TokenInfo, ContractError> {
    Ok(TokenInfo { name: "Solana".to_string(), symbol: "SOL".to_string(), decimals: 6 })
}

fn not_a_cw20(_addr: &String) -> Result<TokenInfo, ContractError> {
    Err(ContractError::Std("Generic error: no such contract".to_string()))
}

fn register(
    query_fee: fn() -> Result<Vec<Coin>, ContractError>,
    token_info: fn(&String) -> Result<TokenInfo, ContractError>,
    env: &Env,
    funds: &[Coin],
) -> Result<Response, ContractError> {
    handle_register_msg(query_fee, token_info, env, &mock_info(SENDER, funds), CW_20_ADDRESS.to_string())
}

#[test]
fn it_handles_correct_register_msg_with_exact_funds() {
    let response = register(default_fee, cw20_info, &env_at(CONTRACT_ADDRESS), &[coin(10, "inj")]).unwrap();

    assert_eq!(response.messages.len(), 1, "incorrect number of messages returned");
    if let AdapterMsg::CreateDenom { sender, subdenom } = response.messages.first().unwrap() {
        assert_eq!(CONTRACT_ADDRESS, sender.as_str(), "incorrect sender in the create denom message");
        assert_eq!(CW_20_ADDRESS, subdenom.as_str(), "incorrect subdenom in the create denom message");
    } else {
        panic!("incorrect injective message found")
    }
}

#[test]
fn it_handles_correct_register_msg_with_extra_funds() {
    let response_err = register(default_fee, cw20_info, &env_at(CONTRACT_ADDRESS), &[coin(100, "inj"), coin(20, "usdt")]).unwrap_err();
    assert_eq!(response_err, ContractError::SuperfluousFundsProvided);
}

#[test]
fn it_returns_error_if_cannot_query_denom_creation_fee_register_msg() {
    let response = register(failing_fee, cw20_info, &env_at(MOCK_CONTRACT_ADDRESS), &[coin(10, "inj")]).unwrap_err();
    assert!(response.to_string().contains("custom error"), "incorrect error returned");
}

#[test]
fn it_returns_error_if_mismatched_denom_is_passed_register_msg() {
    let response = register(default_fee, cw20_info, &env_at(MOCK_CONTRACT_ADDRESS), &[coin(10, "usdt")]).unwrap_err();
    assert_eq!(response, ContractError::NotEnoughBalanceToPayDenomCreationFee, "incorrect error returned");
}

#[test]
fn it_returns_error_if_insufficient_coins_are_passed_register_msg() {
    let response = register(default_fee, cw20_info, &env_at(MOCK_CONTRACT_ADDRESS), &[coin(9, "inj")]).unwrap_err();
    assert_eq!(response, ContractError::NotEnoughBalanceToPayDenomCreationFee, "incorrect error returned");
}

#[test]
fn it_returns_error_if_no_coins_are_passed_register_msg() {
    let response = register(default_fee, cw20_info, &env_at(MOCK_CONTRACT_ADDRESS), &[]).unwrap_err();
    assert_eq!(response, ContractError::NotEnoughBalanceToPayDenomCreationFee, "incorrect error returned");
}

#[test]
fn it_returns_error_if_register_is_not_cw20_msg() {
    let response = register(default_fee, not_a_cw20, &env_at(MOCK_CONTRACT_ADDRESS), &[coin(10, "inj")]).unwrap_err();
    assert_eq!(response, ContractError::NotCw20Address, "incorrect error returned");
}

#[test]
fn register_refuses_more_than_the_fee() {
    let response = register(default_fee, cw20_info, &env_at(CONTRACT_ADDRESS), &[coin(11, "inj")]).unwrap_err();
    assert_eq!(response, ContractError::SuperfluousFundsProvided);
}

#[test]
fn register_pays_a_fee_of_several_coins() {
    fn two_coin_fee() -> Result<Vec<Coin>, ContractError> {
        Ok(vec![coin(10, "inj"), coin(5, "usdt")])
    }
    let paid = register(two_coin_fee, cw20_info, &env_at(CONTRACT_ADDRESS), &[coin(5, "usdt"), coin(10, "inj")]);
    assert!(paid.is_ok());
    let short = register(two_coin_fee, cw20_info, &env_at(CONTRACT_ADDRESS), &[coin(10, "inj")]).unwrap_err();
    assert_eq!(short, ContractError::NotEnoughBalanceToPayDenomCreationFee);
    let too_many = register(two_coin_fee, cw20_info, &env_at(CONTRACT_ADDRESS), &[coin(10, "inj"), coin(6, "usdt")]).unwrap_err();
    assert_eq!(too_many, ContractError::SuperfluousFundsProvided);
}
