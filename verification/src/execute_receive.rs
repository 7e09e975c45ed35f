use vstd::prelude::*;

use crate::common::{
    denom_of, get_denom, outcome, AdapterMsg, Coin, CoinView, Env, MessageInfo, MsgView, Response,
};
use crate::error::ContractError;

verus! {

/// What a CW20 transfer to the adapter is answered with, given whether the
/// sending CW20 contract is registered: no funds may come with it, and the
/// adapter mints the same amount of the sender's denom to `rg_sender`.
pub open spec fn receive_outcome(
    env: Env,
    info: MessageInfo,
    rg_sender: Seq<char>,
    amount: u128,
    registered: bool,
) -> Result<Seq<MsgView>, ContractError> {
    if info.funds.len() > 0 {
        Err(ContractError::SuperfluousFundsProvided)
    } else if !registered {
        Err(ContractError::ContractNotRegistered)
    } else {
        Ok(seq![MsgView::MintTokens {
            sender: env.contract_address@,
            amount: CoinView { denom: denom_of(env.contract_address@, info.sender@), amount },
            mint_to: rg_sender,
        }])
    }
}

/// `r` answers the transfer for some answer of `is_registered` about the
/// sending contract; the lookup is asked only when no funds came along.
pub open spec fn receive_ensures<R: Fn(&String) -> bool>(
    is_registered: R,
    env: Env,
    info: MessageInfo,
    rg_sender: Seq<char>,
    amount: u128,
    r: Result<Seq<MsgView>, ContractError>,
) -> bool {
    exists|registered: bool|
        (info.funds.len() == 0 ==> call_ensures(is_registered, (&info.sender,), registered))
        && r == receive_outcome(env, info, rg_sender, amount, registered)
}

/// Handles CW20 tokens sent to the adapter by the CW20 contract `info.sender`
/// on behalf of `rg_sender`: mints `amount` of the contract's adapter denom to
/// `rg_sender`. `is_registered` tells whether a CW20 contract was registered.
pub fn handle_on_received_cw20_funds_msg<R: Fn(&String) -> bool>(
    is_registered: R,
    env: &Env,
    info: &MessageInfo,
    rg_sender: String,
    amount: u128,
) -> (res: Result<Response, ContractError>)
    requires
        forall|a: &String| is_registered.requires((a,)),
    ensures
        receive_ensures(is_registered, *env, *info, rg_sender@, amount, outcome(res)),
{
    if info.funds.len() != 0 {
        assert(receive_ensures(is_registered, *env, *info, rg_sender@, amount, outcome(Err(ContractError::SuperfluousFundsProvided)))) by {
            assert(outcome(Err(ContractError::SuperfluousFundsProvided)) == receive_outcome(*env, *info, rg_sender@, amount, false));
        }
        return Err(ContractError::SuperfluousFundsProvided);
    }
    let master = &env.contract_address;
    let denom = get_denom(master.as_str(), info.sender.as_str());

    // Every rg-cw20 contract must have been registered.
    let registered = is_registered(&info.sender);
    if !registered {
        assert(outcome(Err(ContractError::ContractNotRegistered)) == receive_outcome(*env, *info, rg_sender@, amount, registered));
        return Err(ContractError::ContractNotRegistered);
    }

    let coins_to_mint = Coin { denom, amount };
    let mint_tf_tokens_message = AdapterMsg::MintTokens {
        sender: master.clone(),
        amount: coins_to_mint,
        mint_to: rg_sender,
    };
    let response = Response { messages: vec![mint_tf_tokens_message] };
    proof {
        assert(response@ =~= receive_outcome(*env, *info, rg_sender@, amount, registered)->Ok_0);
    }
    Ok(response)
}

} // verus!
