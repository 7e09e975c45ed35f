use cw20_adapter::common::{get_denom, AdapterMsg, Coin, Env, MessageInfo, TokenInfo};
use cw20_adapter::common::Response;
use cw20_adapter::contract::{execute, registration_effect};
use cw20_adapter::error::ContractError;
use cw20_adapter::execute_receive::handle_on_received_cw20_funds_msg;
use cw20_adapter::execute_redeem::handle_redeem_msg;
use cw20_adapter::msg::ExecuteMsg;

const CONTRACT_ADDRESS: &str = "inj1pvrwmjuusn9wh34j7y520g8gumuy9xtlt6xtzw";
const CW_20_ADDRESS: &str = "inj1pjcw9hhx8kf462qtgu37p7l7shyqgpfr82r6em";
const SENDER: &str = "inj1n0qvel0zfmsxu3q8q23xzjvuwfxn0ydlhgyh7h";
const RECIPIENT: &str = "inj1recipient";

fn env() -> Env {
    Env { contract_address: CONTRACT_ADDRESS.to_string() }
}

fn info(sender: &str, funds: Vec<Coin>) -> MessageInfo {
    MessageInfo { sender: sender.to_string(), funds }
}

fn only_cw20(a: &String) -> bool {
    a.as_str() == CW_20_ADDRESS
}

fn accept_inj(a: &String) -> Result<String, ContractError> {
    if a.starts_with("inj1") {
        Ok(a.clone())
    } else {
        Err(ContractError::Std("Generic error: Invalid input: human address too short".to_string()))
    }
}

fn minted_denom() -> String {
    get_denom(CONTRACT_ADDRESS, CW_20_ADDRESS)
}

#[test]
fn receive_mints_to_the_rg_sender() {
    let response =
        handle_on_received_cw20_funds_msg(only_cw20, &env(), &info(CW_20_ADDRESS, vec![]), SENDER.to_string(), 1_000).unwrap();
    assert_eq!(
        response.messages,
        vec![AdapterMsg::MintTokens {
            sender: CONTRACT_ADDRESS.to_string(),
            amount: Coin { denom: minted_denom(), amount: 1_000 },
            mint_to: SENDER.to_string(),
        }]
    );
}

#[test]
fn receive_refuses_funds() {
    let err = handle_on_received_cw20_funds_msg(
        only_cw20,
        &env(),
        &info(CW_20_ADDRESS, vec![Coin { denom: "inj".to_string(), amount: 1 }]),
        SENDER.to_string(),
        5,
    )
    .unwrap_err();
    assert_eq!(err, ContractError::SuperfluousFundsProvided);
}

#[test]
fn receive_refuses_unregistered_contracts() {
    let err = handle_on_received_cw20_funds_msg(only_cw20, &env(), &info("inj1other", vec![]), SENDER.to_string(), 5).unwrap_err();
    assert_eq!(err, ContractError::ContractNotRegistered);
}

#[test]
fn redeem_transfers_and_burns() {
    let coin = Coin { denom: minted_denom(), amount: 300 };
    let response = handle_redeem_msg(accept_inj, only_cw20, &env(), &info(SENDER, vec![coin.clone()]), Some(RECIPIENT.to_string())).unwrap();
    assert_eq!(
        response.messages,
        vec![
            AdapterMsg::AdaptorTransfer {
                contract_addr: CW_20_ADDRESS.to_string(),
                sender: SENDER.to_string(),
                recipient: RECIPIENT.to_string(),
                amount: 300,
            },
            AdapterMsg::BurnTokens { sender: CONTRACT_ADDRESS.to_string(), amount: coin },
        ]
    );
}

#[test]
fn redeem_defaults_recipient_to_sender() {
    let coin = Coin { denom: minted_denom(), amount: 7 };
    let response = handle_redeem_msg(accept_inj, only_cw20, &env(), &info(SENDER, vec![coin]), None).unwrap();
    match &response.messages[0] {
        AdapterMsg::AdaptorTransfer { recipient, .. } => assert_eq!(recipient, SENDER),
        other => panic!("unexpected message {other:?}"),
    }
}

#[test]
fn redeem_refuses_invalid_recipient_first() {
    let err = handle_redeem_msg(accept_inj, only_cw20, &env(), &info(SENDER, vec![]), Some("cosmos1x".to_string())).unwrap_err();
    assert_eq!(err, ContractError::Std("Generic error: Invalid input: human address too short".to_string()));
}

#[test]
fn redeem_refuses_several_coins() {
    let c = Coin { denom: minted_denom(), amount: 1 };
    let err = handle_redeem_msg(accept_inj, only_cw20, &env(), &info(SENDER, vec![c.clone(), c]), None).unwrap_err();
    assert_eq!(err, ContractError::SuperfluousFundsProvided);
}

#[test]
fn redeem_needs_an_adapter_coin() {
    let none = handle_redeem_msg(accept_inj, only_cw20, &env(), &info(SENDER, vec![]), None).unwrap_err();
    assert_eq!(none, ContractError::NoRegisteredTokensProvided);
    let plain = Coin { denom: "inj".to_string(), amount: 1 };
    let other = handle_redeem_msg(accept_inj, only_cw20, &env(), &info(SENDER, vec![plain]), None).unwrap_err();
    assert_eq!(other, ContractError::NoRegisteredTokensProvided);
}

#[test]
fn redeem_refuses_unregistered_contracts() {
    let c = Coin { denom: get_denom(CONTRACT_ADDRESS, "inj1unknown"), amount: 1 };
    let err = handle_redeem_msg(accept_inj, only_cw20, &env(), &info(SENDER, vec![c]), None).unwrap_err();
    assert_eq!(err, ContractError::ContractNotRegistered);
}

#[test]
fn receive_then_redeem_round_trip() {
    let minted = handle_on_received_cw20_funds_msg(only_cw20, &env(), &info(CW_20_ADDRESS, vec![]), SENDER.to_string(), 55).unwrap();
    let coin = match &minted.messages[0] {
        AdapterMsg::MintTokens { amount, .. } => amount.clone(),
        other => panic!("unexpected message {other:?}"),
    };
    let redeemed = handle_redeem_msg(accept_inj, only_cw20, &env(), &info(SENDER, vec![coin.clone()]), None).unwrap();
    match &redeemed.messages[0] {
        AdapterMsg::AdaptorTransfer { contract_addr, amount, .. } => {
            assert_eq!(contract_addr, CW_20_ADDRESS);
            assert_eq!(*amount, 55);
        }
        other => panic!("unexpected message {other:?}"),
    }
    assert_eq!(redeemed.messages[1], AdapterMsg::BurnTokens { sender: CONTRACT_ADDRESS.to_string(), amount: coin });
}

fn no_fee() -> Result<Vec<Coin>, ContractError> {
    Ok(vec![])
}

fn token(_a: &String) -> Result<TokenInfo, ContractError> {
    Ok(TokenInfo { name: "Name".to_string(), symbol: "SYM".to_string(), decimals: 18 })
}

#[test]
fn execute_dispatches_by_message() {
    let receive = ExecuteMsg::Receive { sender: SENDER.to_string(), amount: 9, msg: vec![] };
    let r = execute(accept_inj, only_cw20, token, no_fee, &env(), &info(CW_20_ADDRESS, vec![]), receive).unwrap();
    assert!(matches!(r.messages[0], AdapterMsg::MintTokens { .. }));

    let redeem = ExecuteMsg::RedeemAndTransfer { recipient: None };
    let err = execute(accept_inj, only_cw20, token, no_fee, &env(), &info(SENDER, vec![]), redeem).unwrap_err();
    assert_eq!(err, ContractError::NoRegisteredTokensProvided);

    let update = ExecuteMsg::UpdateMetadata { addr: CW_20_ADDRESS.to_string() };
    let r = execute(accept_inj, only_cw20, token, no_fee, &env(), &info(SENDER, vec![]), update).unwrap();
    assert_eq!(
        r.messages,
        vec![AdapterMsg::SetTokenMetadata { denom: minted_denom(), name: "Name".to_string(), symbol: "SYM".to_string(), decimals: 18 }]
    );

    let register = ExecuteMsg::RegisterRG { addr: CW_20_ADDRESS.to_string() };
    let r = execute(accept_inj, only_cw20, token, no_fee, &env(), &info(SENDER, vec![]), register).unwrap();
    assert_eq!(r.messages, vec![AdapterMsg::CreateDenom { sender: CONTRACT_ADDRESS.to_string(), subdenom: CW_20_ADDRESS.to_string() }]);
}

#[test]
fn only_an_accepted_registration_registers() {
    let register = ExecuteMsg::RegisterRG { addr: CW_20_ADDRESS.to_string() };
    let accepted: Result<Response, ContractError> = Ok(Response { messages: vec![] });
    let refused: Result<Response, ContractError> = Err(ContractError::NotCw20Address);
    assert_eq!(registration_effect(&register, &accepted), Some(CW_20_ADDRESS.to_string()));
    assert_eq!(registration_effect(&register, &refused), None);
    let update = ExecuteMsg::UpdateMetadata { addr: CW_20_ADDRESS.to_string() };
    assert_eq!(registration_effect(&update, &accepted), None);
}

#[test]
fn a_registered_contract_is_served() {
    let register = ExecuteMsg::RegisterRG { addr: "inj1fresh".to_string() };
    let mut registry: Vec<String> = vec![];
    let answer = execute(accept_inj, |a: &String| registry.contains(a), token, no_fee, &env(), &info(SENDER, vec![]), register.clone());
    if let Some(a) = registration_effect(&register, &answer) {
        registry.push(a);
    }
    let receive = ExecuteMsg::Receive { sender: SENDER.to_string(), amount: 3, msg: vec![] };
    let minted = execute(accept_inj, |a: &String| registry.contains(a), token, no_fee, &env(), &info("inj1fresh", vec![]), receive);
    assert!(minted.is_ok());
}
