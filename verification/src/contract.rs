use vstd::prelude::*;

use crate::common::{outcome, Coin, Env, MessageInfo, MsgView, Response, TokenInfo};
use crate::error::ContractError;
use crate::execute_metadata::{handle_update_metadata, update_metadata_ensures};
use crate::execute_receive::{handle_on_received_cw20_funds_msg, receive_ensures};
use crate::execute_redeem::{handle_redeem_msg, redeem_ensures};
use crate::execute_register::{handle_register_msg, register_ensures};
use crate::msg::ExecuteMsg;

verus! {

/// `r` answers `msg` as the handler of its kind does.
pub open spec fn execute_ensures<
    V: Fn(&String) -> Result<String, ContractError>,
    R: Fn(&String) -> bool,
    T: Fn(&String) -> Result<TokenInfo, ContractError>,
    Q: Fn() -> Result<Vec<Coin>, ContractError>,
>(
    validate_addr: V,
    is_registered: R,
    fetch_token_info: T,
    query_fee: Q,
    env: Env,
    info: MessageInfo,
    msg: ExecuteMsg,
    r: Result<Seq<MsgView>, ContractError>,
) -> bool {
    match msg {
        ExecuteMsg::Receive { sender, amount, msg: _ } =>
            receive_ensures(is_registered, env, info, sender@, amount, r),
        ExecuteMsg::RedeemAndTransfer { recipient } =>
            redeem_ensures(validate_addr, is_registered, env, info, recipient, r),
        ExecuteMsg::UpdateMetadata { addr } =>
            update_metadata_ensures(is_registered, fetch_token_info, env, addr, r),
        ExecuteMsg::RegisterRG { addr } =>
            register_ensures(query_fee, fetch_token_info, env, info, addr, r),
    }
}

/// Executes `msg`, reaching the chain through the host operations:
/// `validate_addr` checks an address, `is_registered` tells whether a CW20
/// contract was registered, `fetch_token_info` queries a CW20 contract's token,
/// and `query_fee` asks for the fee of a new denom.
pub fn execute<
    V: Fn(&String) -> Result<String, ContractError>,
    R: Fn(&String) -> bool,
    T: Fn(&String) -> Result<TokenInfo, ContractError>,
    Q: Fn() -> Result<Vec<Coin>, ContractError>,
>(
    validate_addr: V,
    is_registered: R,
    fetch_token_info: T,
    query_fee: Q,
    env: &Env,
    info: &MessageInfo,
    msg: ExecuteMsg,
) -> (res: Result<Response, ContractError>)
    requires
        forall|a: &String| validate_addr.requires((a,)),
        forall|a: &String| is_registered.requires((a,)),
        forall|a: &String| fetch_token_info.requires((a,)),
        query_fee.requires(()),
    ensures
        execute_ensures(
            validate_addr,
            is_registered,
            fetch_token_info,
            query_fee,
            *env,
            *info,
            msg,
            outcome(res),
        ),
{
    match msg {
        ExecuteMsg::Receive { sender, amount, msg: _ } =>
            handle_on_received_cw20_funds_msg(is_registered, env, info, sender, amount),
        ExecuteMsg::RedeemAndTransfer { recipient } =>
            handle_redeem_msg(validate_addr, is_registered, env, info, recipient),
        ExecuteMsg::UpdateMetadata { addr } =>
            handle_update_metadata(is_registered, fetch_token_info, env, addr),
        ExecuteMsg::RegisterRG { addr } =>
            handle_register_msg(query_fee, fetch_token_info, env, info, addr),
    }
}


/// The CW20 contract that answering `msg` with `r` registers: the address of a
/// `RegisterRG` request that was accepted, and none otherwise.
pub open spec fn registration_of(msg: ExecuteMsg, r: Result<Seq<MsgView>, ContractError>) -> Option<Seq<char>> {
    match msg {
        ExecuteMsg::RegisterRG { addr } => if r is Ok {
            Some(addr@)
        } else {
            None
        },
        _ => None,
    }
}

/// The set of registered CW20 contracts once `registration` took effect.
pub open spec fn registry_after(registry: Set<Seq<char>>, registration: Option<Seq<char>>) -> Set<Seq<char>> {
    match registration {
        Some(a) => registry.insert(a),
        None => registry,
    }
}

/// The CW20 contract to record as registered after `msg` was answered with
/// `res`: the address of an accepted `RegisterRG`, and none otherwise.
pub fn registration_effect(msg: &ExecuteMsg, res: &Result<Response, ContractError>) -> (registered: Option<String>)
    ensures
        registered matches Some(a) ==> registration_of(*msg, outcome(*res)) == Some(a@),
        registered is None ==> registration_of(*msg, outcome(*res)) is None,
{
    match msg {
        ExecuteMsg::RegisterRG { addr } => match res {
            Ok(_) => Some(addr.clone()),
            Err(_) => None,
        },
        _ => None,
    }
}

} // verus!
