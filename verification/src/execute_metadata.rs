use vstd::prelude::*;

use crate::common::{denom_of, get_denom, outcome, AdapterMsg, Env, MsgView, Response, TokenInfo};
use crate::error::ContractError;

verus! {

/// What a metadata update for the CW20 contract `cw20` is answered with, given
/// whether it is registered and what it reported of its token (or the failure
/// of that query): the token-factory metadata of its adapter denom is set to
/// the CW20 token's name, symbol and decimals.
pub open spec fn update_metadata_outcome(
    env: Env,
    cw20: Seq<char>,
    registered: bool,
    token_info: Result<TokenInfo, ContractError>,
) -> Result<Seq<MsgView>, ContractError> {
    if !registered {
        Err(ContractError::ContractNotRegistered)
    } else {
        match token_info {
            Err(e) => Err(e),
            Ok(t) => Ok(seq![MsgView::SetTokenMetadata {
                denom: denom_of(env.contract_address@, cw20),
                name: t.name@,
                symbol: t.symbol@,
                decimals: t.decimals,
            }]),
        }
    }
}

/// The host answered the update's questions with `registered` (what
/// `is_registered` said of `cw20_addr`) and `token_info` (what
/// `fetch_token_info` returned for it, once asked), and `r` follows from them.
pub open spec fn update_metadata_answered<
    R: Fn(&String) -> bool,
    T: Fn(&String) -> Result<TokenInfo, ContractError>,
>(
    is_registered: R,
    fetch_token_info: T,
    env: Env,
    cw20_addr: String,
    r: Result<Seq<MsgView>, ContractError>,
    registered: bool,
    token_info: Result<TokenInfo, ContractError>,
) -> bool {
    &&& call_ensures(is_registered, (&cw20_addr,), registered)
    &&& registered ==> call_ensures(fetch_token_info, (&cw20_addr,), token_info)
    &&& r == update_metadata_outcome(env, cw20_addr@, registered, token_info)
}

/// `r` answers the metadata update for some answers of the host.
pub open spec fn update_metadata_ensures<
    R: Fn(&String) -> bool,
    T: Fn(&String) -> Result<TokenInfo, ContractError>,
>(
    is_registered: R,
    fetch_token_info: T,
    env: Env,
    cw20_addr: String,
    r: Result<Seq<MsgView>, ContractError>,
) -> bool {
    exists|registered: bool, token_info: Result<TokenInfo, ContractError>|
        #[trigger] update_metadata_answered(
            is_registered,
            fetch_token_info,
            env,
            cw20_addr,
            r,
            registered,
            token_info,
        )
}

/// Copies the name, symbol and decimals of the registered CW20 contract
/// `cw20_addr` onto its adapter denom. `is_registered` tells whether a CW20
/// contract was registered, `fetch_token_info` queries a CW20 contract's token.
pub fn handle_update_metadata<
    R: Fn(&String) -> bool,
    T: Fn(&String) -> Result<TokenInfo, ContractError>,
>(
    is_registered: R,
    fetch_token_info: T,
    env: &Env,
    cw20_addr: String,
) -> (res: Result<Response, ContractError>)
    requires
        forall|a: &String| is_registered.requires((a,)),
        forall|a: &String| fetch_token_info.requires((a,)),
    ensures
        update_metadata_ensures(is_registered, fetch_token_info, *env, cw20_addr, outcome(res)),
{
    let contract_registered = is_registered(&cw20_addr);
    if !contract_registered {
        let ghost anything = Err::<TokenInfo, ContractError>(ContractError::NotCw20Address);
        assert(update_metadata_answered(is_registered, fetch_token_info, *env, cw20_addr,
            outcome(Err(ContractError::ContractNotRegistered)), contract_registered, anything));
        return Err(ContractError::ContractNotRegistered);
    }
    let token_metadata = fetch_token_info(&cw20_addr);
    let ghost fetched = token_metadata;
    let token_metadata = match token_metadata {
        Ok(t) => t,
        Err(e) => {
            assert(update_metadata_answered(is_registered, fetch_token_info, *env, cw20_addr,
                outcome(Err(e)), contract_registered, fetched));
            return Err(e);
        },
    };

    let denom = get_denom(env.contract_address.as_str(), cw20_addr.as_str());
    let set_metadata_message = AdapterMsg::SetTokenMetadata {
        denom,
        name: token_metadata.name,
        symbol: token_metadata.symbol,
        decimals: token_metadata.decimals,
    };
    let response = Response { messages: vec![set_metadata_message] };
    proof {
        assert(response@ =~= update_metadata_outcome(*env, cw20_addr@, contract_registered, fetched)->Ok_0);
        assert(update_metadata_answered(is_registered, fetch_token_info, *env, cw20_addr,
            outcome(Ok(response)), contract_registered, fetched));
    }
    Ok(response)
}

} // verus!
