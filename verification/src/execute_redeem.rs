use vstd::prelude::*;

use crate::common::{
    denom_parts, is_adapter_denom, law_denom_rebuilt_from_parts, outcome, AdapterCoin,
    AdapterDenom, AdapterMsg, Env, MessageInfo, MsgView, Response,
};
use crate::error::ContractError;

verus! {

/// The CW20 contract whose adapter denom the only coin of `info` is.
pub open spec fn redeemed_cw20(info: MessageInfo) -> Seq<char> {
    denom_parts(info.funds@[0].denom@).1
}

/// `info` carries exactly one coin, of an adapter denom.
pub open spec fn redeems_one_adapter_coin(info: MessageInfo) -> bool {
    info.funds.len() == 1 && is_adapter_denom(info.funds@[0].denom@)
}

/// What a redeem request is answered with, given the checked recipient (or
/// the failure of that check) and whether the CW20 contract of the redeemed
/// denom is registered: at most one coin may come with it, it must be of an
/// adapter denom, and then the CW20 contract transfers the same amount from the
/// sender to the recipient while the adapter burns the coin it received.
pub open spec fn redeem_outcome(
    env: Env,
    info: MessageInfo,
    recipient: Result<String, ContractError>,
    registered: bool,
) -> Result<Seq<MsgView>, ContractError> {
    match recipient {
        Err(e) => Err(e),
        Ok(rcpt) => if info.funds.len() > 1 {
            Err(ContractError::SuperfluousFundsProvided)
        } else if !redeems_one_adapter_coin(info) {
            Err(ContractError::NoRegisteredTokensProvided)
        } else if !registered {
            Err(ContractError::ContractNotRegistered)
        } else {
            Ok(seq![
                MsgView::AdaptorTransfer {
                    contract_addr: redeemed_cw20(info),
                    sender: info.sender@,
                    recipient: rcpt@,
                    amount: info.funds@[0].amount,
                },
                MsgView::BurnTokens { sender: env.contract_address@, amount: info.funds@[0]@ },
            ])
        },
    }
}

/// The host answered the redeem request's questions with `rcpt` (the checked
/// recipient: the sender when none is given, else what `validate_addr` made of
/// it) and `registered` (what `is_registered` said of `key`, the CW20 contract of
/// the redeemed denom, once the request got that far), and `r` is the answer
/// that follows from them.
pub open spec fn redeem_answered<
    V: Fn(&String) -> Result<String, ContractError>,
    R: Fn(&String) -> bool,
>(
    validate_addr: V,
    is_registered: R,
    env: Env,
    info: MessageInfo,
    recipient: Option<String>,
    r: Result<Seq<MsgView>, ContractError>,
    rcpt: Result<String, ContractError>,
    key: String,
    registered: bool,
) -> bool {
    &&& match recipient {
        Some(a) => call_ensures(validate_addr, (&a,), rcpt),
        None => rcpt == Ok::<String, ContractError>(info.sender),
    }
    &&& (rcpt is Ok && redeems_one_adapter_coin(info)) ==> key@ == redeemed_cw20(info)
        && call_ensures(is_registered, (&key,), registered)
    &&& r == redeem_outcome(env, info, rcpt, registered)
}

/// `r` answers the redeem request for some answers of the host.
pub open spec fn redeem_ensures<
    V: Fn(&String) -> Result<String, ContractError>,
    R: Fn(&String) -> bool,
>(
    validate_addr: V,
    is_registered: R,
    env: Env,
    info: MessageInfo,
    recipient: Option<String>,
    r: Result<Seq<MsgView>, ContractError>,
) -> bool {
    exists|rcpt: Result<String, ContractError>, key: String, registered: bool|
        #[trigger] redeem_answered(validate_addr, is_registered, env, info, recipient, r, rcpt, key, registered)
}

/// Handles a redeem request: the single token-factory coin sent along, of the
/// adapter denom of some CW20 contract, is burnt, and the CW20 contract moves
/// the same amount from the sender to `recipient` (or to the sender).
/// `validate_addr` checks an address, `is_registered` tells whether a CW20
/// contract was registered.
pub fn handle_redeem_msg<
    V: Fn(&String) -> Result<String, ContractError>,
    R: Fn(&String) -> bool,
>(
    validate_addr: V,
    is_registered: R,
    env: &Env,
    info: &MessageInfo,
    recipient: Option<String>,
) -> (res: Result<Response, ContractError>)
    requires
        forall|a: &String| validate_addr.requires((a,)),
        forall|a: &String| is_registered.requires((a,)),
    ensures
        redeem_ensures(validate_addr, is_registered, *env, *info, recipient, outcome(res)),
{
    let ghost key_witness = info.sender;
    let valid_recipient = match &recipient {
        Some(r) => validate_addr(r),
        None => Ok(info.sender.clone()),
    };
    let ghost vr = valid_recipient;
    assert(match recipient {
        Some(a) => call_ensures(validate_addr, (&a,), vr),
        None => vr == Ok::<String, ContractError>(info.sender),
    });
    let valid_recipient = match valid_recipient {
        Ok(a) => a,
        Err(e) => {
            assert(outcome(Err(e)) == redeem_outcome(*env, *info, vr, false));
            assert(redeem_answered(validate_addr, is_registered, *env, *info, recipient, outcome(Err(e)), vr, key_witness, false));
            return Err(e);
        },
    };
    let ghost rcpt = Ok::<String, ContractError>(valid_recipient);

    if info.funds.len() > 1 {
        assert(outcome(Err(ContractError::SuperfluousFundsProvided)) == redeem_outcome(*env, *info, rcpt, false));
        assert(redeem_answered(validate_addr, is_registered, *env, *info, recipient, outcome(Err(ContractError::SuperfluousFundsProvided)), vr, key_witness, false));
        return Err(ContractError::SuperfluousFundsProvided);
    }
    // The first coin of an adapter denom.
    let mut tokens_to_exchange: Option<AdapterCoin> = None;
    let mut i: usize = 0;
    while i < info.funds.len() && tokens_to_exchange.is_none()
        invariant
            i <= info.funds.len() <= 1,
            tokens_to_exchange is None ==> forall|j: int| 0 <= j < i ==> !is_adapter_denom(#[trigger] info.funds@[j].denom@),
            tokens_to_exchange matches Some(c) ==> i == 1 && is_adapter_denom(info.funds@[0].denom@)
                && (c.denom.adapter_addr@, c.denom.cw20_addr@) == denom_parts(info.funds@[0].denom@)
                && c.amount == info.funds@[0].amount,
        decreases info.funds.len() - i,
    {
        match AdapterDenom::new(info.funds[i].denom.as_str()) {
            Ok(denom) => {
                tokens_to_exchange = Some(AdapterCoin { amount: info.funds[i].amount, denom });
            },
            Err(_) => {},
        }
        i = i + 1;
    }
    let tokens_to_exchange = match tokens_to_exchange {
        Some(c) => c,
        None => {
            assert(!redeems_one_adapter_coin(*info));
            assert(outcome(Err(ContractError::NoRegisteredTokensProvided)) == redeem_outcome(*env, *info, rcpt, false));
            assert(redeem_answered(validate_addr, is_registered, *env, *info, recipient, outcome(Err(ContractError::NoRegisteredTokensProvided)), vr, key_witness, false));
            return Err(ContractError::NoRegisteredTokensProvided);
        },
    };

    let cw20_addr = tokens_to_exchange.denom.cw20_addr.clone();
    let burn_tf_tokens_message = AdapterMsg::BurnTokens {
        sender: env.contract_address.clone(),
        amount: tokens_to_exchange.as_coin(),
    };

    // The CW20 contract that the denom names must have been registered.
    let registered = is_registered(&cw20_addr);
    if !registered {
        assert(outcome(Err(ContractError::ContractNotRegistered)) == redeem_outcome(*env, *info, rcpt, registered));
        assert(redeem_answered(validate_addr, is_registered, *env, *info, recipient, outcome(Err(ContractError::ContractNotRegistered)), vr, cw20_addr, registered));
        return Err(ContractError::ContractNotRegistered);
    }

    let adaptor_transfer_msg = AdapterMsg::AdaptorTransfer {
        contract_addr: cw20_addr,
        sender: info.sender.clone(),
        recipient: valid_recipient,
        amount: tokens_to_exchange.amount,
    };
    let response = Response { messages: vec![adaptor_transfer_msg, burn_tf_tokens_message] };
    proof {
        law_denom_rebuilt_from_parts(info.funds@[0].denom@);
        assert(response@ =~= redeem_outcome(*env, *info, rcpt, registered)->Ok_0);
        assert(redeem_answered(validate_addr, is_registered, *env, *info, recipient, outcome(Ok(response)), vr, cw20_addr, registered));
    }
    Ok(response)
}

} // verus!
