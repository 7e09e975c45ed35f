use cw20_adapter::common::{get_denom, AdapterMsg, Env, TokenInfo};
use cw20_adapter::error::ContractError;
use cw20_adapter::execute_metadata::handle_update_metadata;

const CONTRACT_ADDRESS: &str = "inj1pvrwmjuusn9wh34j7y520g8gumuy9xtlt6xtzw";
const CW_20_ADDRESS: &str = "inj1pjcw9hhx8kf462qtgu37p7l7shyqgpfr82r6em";

fn cw20_info(_addr: &String) -> Result<TokenInfo, ContractError> {
    Ok(TokenInfo { name: "Solana".to_string(), symbol: "SOL".to_string(), decimals: 6 })
}

#[test]
fn it_updates_metadata() {
    let env = Env { contract_address: CONTRACT_ADDRESS.to_string() };
    let registered = |a: &String| a.as_str() == CW_20_ADDRESS;

    let response = handle_update_metadata(registered, cw20_info, &env, CW_20_ADDRESS.to_string()).unwrap();
    assert_eq!(response.messages.len(), 1, "incorrect number of messages returned");

    if let AdapterMsg::SetTokenMetadata { denom, name, symbol, decimals } = response.messages.first().unwrap() {
        assert_eq!(get_denom(CONTRACT_ADDRESS, CW_20_ADDRESS), denom.as_str(), "incorrect denom in set metadata message");
        assert_eq!("SOL", symbol.as_str(), "incorrect symbol in set metadata message");
        assert_eq!("Solana", name.as_str(), "incorrect name in set metadata message");
        assert_eq!(6, *decimals, "incorrect decimals in set metadata message");
    } else {
        panic!("incorrect injective message found")
    }
}

#[test]
fn it_tries_to_update_not_registered_contract() {
    let env = Env { contract_address: "cosmos2contract".to_string() };
    let registered = |_a: &String| false;

    let err_response = handle_update_metadata(registered, cw20_info, &env, CW_20_ADDRESS.to_string()).unwrap_err();
    assert_eq!(err_response, ContractError::ContractNotRegistered, "incorrect error");
}

#[test]
fn update_metadata_passes_on_a_failed_token_query() {
    let env = Env { contract_address: CONTRACT_ADDRESS.to_string() };
    let failing = |_a: &String| -> Result<TokenInfo, ContractError> { Err(ContractError::Std("query failed".to_string())) };
    let err = handle_update_metadata(|_a: &String| true, failing, &env, CW_20_ADDRESS.to_string()).unwrap_err();
    assert_eq!(err, ContractError::Std("query failed".to_string()));
}
