use vstd::prelude::*;

use crate::common::{outcome, AdapterMsg, Coin, Env, MessageInfo, MsgView, Response, TokenInfo};
use crate::error::ContractError;

verus! {

/// `i` is the first coin of `provided` in `denom`.
pub open spec fn is_first_of_denom(provided: Seq<Coin>, denom: Seq<char>, i: int) -> bool {
    &&& 0 <= i < provided.len()
    &&& provided[i].denom@ == denom
    &&& forall|j: int| 0 <= j < i ==> provided[j].denom@ != denom
}

/// How the funds `provided` pay the fee coin `fee`: the first coin of its denom
/// must carry exactly its amount; less, or no such coin, does not pay it, and
/// more pays too much.
pub open spec fn coin_payment(fee: Coin, provided: Seq<Coin>) -> Result<(), ContractError> {
    if exists|i: int| is_first_of_denom(provided, fee.denom@, i) {
        let i = choose|i: int| is_first_of_denom(provided, fee.denom@, i);
        if provided[i].amount < fee.amount {
            Err(ContractError::NotEnoughBalanceToPayDenomCreationFee)
        } else if provided[i].amount > fee.amount {
            Err(ContractError::SuperfluousFundsProvided)
        } else {
            Ok(())
        }
    } else {
        Err(ContractError::NotEnoughBalanceToPayDenomCreationFee)
    }
}

/// How the funds `provided` pay the fee `required`, coin by coin in order: the
/// answer of the first fee coin they do not pay exactly.
pub open spec fn fee_payment(required: Seq<Coin>, provided: Seq<Coin>) -> Result<(), ContractError>
    decreases required.len(),
{
    if required.len() == 0 {
        Ok(())
    } else {
        match fee_payment(required.drop_last(), provided) {
            Err(e) => Err(e),
            Ok(()) => coin_payment(required.last(), provided),
        }
    }
}

/// What registering the CW20 contract `cw20` is answered with, given the fee
/// for a new denom (or the failure of that query) and whether `cw20` answered a
/// token-info query: no more coins than the fee has may come along, they must
/// pay the fee exactly, `cw20` must be a CW20 contract, and then the adapter
/// creates the denom `factory/{adapter}/{cw20}`.
pub open spec fn register_outcome(
    env: Env,
    info: MessageInfo,
    cw20: Seq<char>,
    fee: Result<Vec<Coin>, ContractError>,
    is_cw20: bool,
) -> Result<Seq<MsgView>, ContractError> {
    match fee {
        Err(e) => Err(e),
        Ok(required) => if info.funds.len() > required.len() {
            Err(ContractError::SuperfluousFundsProvided)
        } else {
            match fee_payment(required@, info.funds@) {
                Err(e) => Err(e),
                Ok(()) => if !is_cw20 {
                    Err(ContractError::NotCw20Address)
                } else {
                    Ok(seq![MsgView::CreateDenom { sender: env.contract_address@, subdenom: cw20 }])
                },
            }
        },
    }
}

/// The host answered the registration's questions with `fee` (what
/// `query_fee` returned) and `token_info` (what `fetch_token_info` returned for
/// `cw20_addr`, once asked), and `r` follows from them.
pub open spec fn register_answered<
    Q: Fn() -> Result<Vec<Coin>, ContractError>,
    T: Fn(&String) -> Result<TokenInfo, ContractError>,
>(
    query_fee: Q,
    fetch_token_info: T,
    env: Env,
    info: MessageInfo,
    cw20_addr: String,
    r: Result<Seq<MsgView>, ContractError>,
    fee: Result<Vec<Coin>, ContractError>,
    token_info: Result<TokenInfo, ContractError>,
) -> bool {
    &&& call_ensures(query_fee, (), fee)
    &&& (fee matches Ok(required) && info.funds.len() <= required.len()
        && fee_payment(required@, info.funds@) is Ok)
        ==> call_ensures(fetch_token_info, (&cw20_addr,), token_info)
    &&& r == register_outcome(env, info, cw20_addr@, fee, token_info is Ok)
}

/// `r` answers the registration for some answers of the host.
pub open spec fn register_ensures<
    Q: Fn() -> Result<Vec<Coin>, ContractError>,
    T: Fn(&String) -> Result<TokenInfo, ContractError>,
>(
    query_fee: Q,
    fetch_token_info: T,
    env: Env,
    info: MessageInfo,
    cw20_addr: String,
    r: Result<Seq<MsgView>, ContractError>,
) -> bool {
    exists|fee: Result<Vec<Coin>, ContractError>, token_info: Result<TokenInfo, ContractError>|
        #[trigger] register_answered(query_fee, fetch_token_info, env, info, cw20_addr, r, fee, token_info)
}

/// How `provided` pays the single fee coin `fee`.
fn pay_fee_coin(fee: &Coin, provided: &Vec<Coin>) -> (res: Result<(), ContractError>)
    ensures
        res == coin_payment(*fee, provided@),
{
    let mut i: usize = 0;
    while i < provided.len()
        invariant
            i <= provided.len(),
            forall|j: int| 0 <= j < i ==> provided@[j].denom@ != fee.denom@,
        decreases provided.len() - i,
    {
        if provided[i].denom == fee.denom {
            assert(is_first_of_denom(provided@, fee.denom@, i as int));
            proof {
                let k = choose|k: int| is_first_of_denom(provided@, fee.denom@, k);
                if k < i {
                } else if k > i {
                    assert(provided@[i as int].denom@ != fee.denom@);
                }
            }
            if provided[i].amount < fee.amount {
                return Err(ContractError::NotEnoughBalanceToPayDenomCreationFee);
            } else if provided[i].amount > fee.amount {
                return Err(ContractError::SuperfluousFundsProvided);
            } else {
                return Ok(());
            }
        }
        i = i + 1;
    }
    Err(ContractError::NotEnoughBalanceToPayDenomCreationFee)
}

/// How `provided` pays the fee `required`.
fn pay_fee(required: &Vec<Coin>, provided: &Vec<Coin>) -> (res: Result<(), ContractError>)
    ensures
        res == fee_payment(required@, provided@),
{
    let mut k: usize = 0;
    while k < required.len()
        invariant
            k <= required.len(),
            fee_payment(required@.take(k as int), provided@) is Ok,
        decreases required.len() - k,
    {
        assert(required@.take(k + 1).drop_last() =~= required@.take(k as int));
        match pay_fee_coin(&required[k], provided) {
            Err(e) => {
                proof {
                    lemma_fee_payment_stops(required@, provided@, k as int);
                }
                return Err(e);
            },
            Ok(()) => {},
        }
        k = k + 1;
    }
    assert(required@.take(k as int) =~= required@);
    Ok(())
}

/// Once a fee coin is not paid exactly, the whole fee answers as it does.
proof fn lemma_fee_payment_stops(required: Seq<Coin>, provided: Seq<Coin>, k: int)
    requires
        0 <= k < required.len(),
        fee_payment(required.take(k), provided) is Ok,
        coin_payment(required[k], provided) is Err,
    ensures
        fee_payment(required, provided) == coin_payment(required[k], provided),
    decreases required.len() - k,
{
    if k + 1 == required.len() {
        assert(required.drop_last() =~= required.take(k));
    } else {
        assert(required.drop_last().take(k) =~= required.take(k));
        assert(required.drop_last()[k] == required[k]);
        lemma_fee_payment_stops(required.drop_last(), provided, k);
    }
}

/// Registers the CW20 contract `addr`: the funds sent must pay the fee for a
/// new denom (which `query_fee` asks the chain for) exactly, `addr` must answer
/// a CW20 token-info query (`fetch_token_info`), and then the adapter creates
/// the denom `factory/{adapter}/{addr}`. On success the caller records `addr`
/// as registered.
pub fn handle_register_msg<
    Q: Fn() -> Result<Vec<Coin>, ContractError>,
    T: Fn(&String) -> Result<TokenInfo, ContractError>,
>(
    query_fee: Q,
    fetch_token_info: T,
    env: &Env,
    info: &MessageInfo,
    addr: String,
) -> (res: Result<Response, ContractError>)
    requires
        query_fee.requires(()),
        forall|a: &String| fetch_token_info.requires((a,)),
    ensures
        register_ensures(query_fee, fetch_token_info, *env, *info, addr, outcome(res)),
{
    let fee = query_fee();
    let ghost queried = fee;
    let ghost no_info = Err::<TokenInfo, ContractError>(ContractError::NotCw20Address);
    let required = match fee {
        Ok(required) => required,
        Err(e) => {
            assert(register_answered(query_fee, fetch_token_info, *env, *info, addr,
                outcome(Err(e)), queried, no_info));
            return Err(e);
        },
    };
    if info.funds.len() > required.len() {
        assert(register_answered(query_fee, fetch_token_info, *env, *info, addr,
            outcome(Err(ContractError::SuperfluousFundsProvided)), queried, no_info));
        return Err(ContractError::SuperfluousFundsProvided);
    }
    match pay_fee(&required, &info.funds) {
        Err(e) => {
            assert(register_answered(query_fee, fetch_token_info, *env, *info, addr,
                outcome(Err(e)), queried, no_info));
            return Err(e);
        },
        Ok(()) => {},
    }
    let token_info = fetch_token_info(&addr);
    let ghost fetched = token_info;
    if token_info.is_err() {
        assert(register_answered(query_fee, fetch_token_info, *env, *info, addr,
            outcome(Err(ContractError::NotCw20Address)), queried, fetched));
        return Err(ContractError::NotCw20Address);
    }
    let create_denom_msg = AdapterMsg::CreateDenom {
        sender: env.contract_address.clone(),
        subdenom: addr,
    };
    let response = Response { messages: vec![create_denom_msg] };
    proof {
        assert(response@ =~= register_outcome(*env, *info, addr@, queried, true)->Ok_0);
        assert(register_answered(query_fee, fetch_token_info, *env, *info, addr,
            outcome(Ok(response)), queried, fetched));
    }
    Ok(response)
}

} // verus!
