use vstd::prelude::*;

use crate::common::{
    denom_of, denom_parts, is_adapter_denom, is_denom_part, law_denom_round_trip, Coin, CoinView,
    Env, MessageInfo, MsgView,
};
use crate::error::ContractError;
use crate::execute_metadata::update_metadata_outcome;
use crate::execute_receive::receive_outcome;
use crate::execute_redeem::redeem_outcome;
use crate::execute_register::{coin_payment, fee_payment, register_outcome};
use crate::common::TokenInfo;
use crate::contract::{registration_of, registry_after};
use crate::execute_redeem::redeemed_cw20;
use crate::msg::ExecuteMsg;
use crate::contract::execute_ensures;
use crate::execute_receive::receive_ensures;
use crate::execute_register::is_first_of_denom;

verus! {

/// Law: a CW20 transfer that comes with any funds is refused with
/// `SuperfluousFundsProvided`, whether or not its contract is registered.
pub proof fn law_receive_refuses_funds(
    env: Env,
    info: MessageInfo,
    rg_sender: Seq<char>,
    amount: u128,
    registered: bool,
)
    requires
        info.funds.len() > 0,
    ensures
        receive_outcome(env, info, rg_sender, amount, registered)
            == Err::<Seq<MsgView>, ContractError>(ContractError::SuperfluousFundsProvided),
{
}

/// Law: what the adapter mints for a CW20 contract it can redeem again: the
/// minted denom is an adapter denom that names this adapter and that contract.
pub proof fn law_minted_denom_names_its_contract(
    env: Env,
    info: MessageInfo,
    rg_sender: Seq<char>,
    amount: u128,
)
    requires
        is_denom_part(env.contract_address@),
        is_denom_part(info.sender@),
        receive_outcome(env, info, rg_sender, amount, true) is Ok,
    ensures
        ({
            let minted = denom_of(env.contract_address@, info.sender@);
            &&& receive_outcome(env, info, rg_sender, amount, true)->Ok_0 == seq![MsgView::MintTokens {
                sender: env.contract_address@,
                amount: CoinView { denom: minted, amount },
                mint_to: rg_sender,
            }]
            &&& is_adapter_denom(minted)
            &&& denom_parts(minted) == (env.contract_address@, info.sender@)
        }),
{
    law_denom_round_trip(env.contract_address@, info.sender@);
}

/// Law: redeeming exactly the coin that a CW20 transfer minted sends the same
/// amount back through that CW20 contract, to the recipient, and burns the coin.
pub proof fn law_redeem_returns_what_receive_minted(
    env: Env,
    deposit: MessageInfo,
    rg_sender: Seq<char>,
    amount: u128,
    redeem: MessageInfo,
    recipient: String,
)
    requires
        is_denom_part(env.contract_address@),
        is_denom_part(deposit.sender@),
        receive_outcome(env, deposit, rg_sender, amount, true) is Ok,
        redeem.funds.len() == 1,
        redeem.funds@[0]@ == (CoinView {
            denom: denom_of(env.contract_address@, deposit.sender@),
            amount,
        }),
    ensures
        redeem_outcome(env, redeem, Ok(recipient), true) == Ok::<Seq<MsgView>, ContractError>(seq![
            MsgView::AdaptorTransfer {
                contract_addr: deposit.sender@,
                sender: redeem.sender@,
                recipient: recipient@,
                amount,
            },
            MsgView::BurnTokens {
                sender: env.contract_address@,
                amount: CoinView { denom: denom_of(env.contract_address@, deposit.sender@), amount },
            },
        ]),
{
    law_denom_round_trip(env.contract_address@, deposit.sender@);
}

/// Law: an accepted redeem request transfers exactly the amount it burns, and
/// burns exactly the coin that came with it.
pub proof fn law_redeem_transfers_what_it_burns(
    env: Env,
    info: MessageInfo,
    recipient: Result<String, ContractError>,
    registered: bool,
)
    requires
        redeem_outcome(env, info, recipient, registered) is Ok,
    ensures
        ({
            let msgs = redeem_outcome(env, info, recipient, registered)->Ok_0;
            &&& info.funds.len() == 1
            &&& msgs.len() == 2
            &&& msgs[0] matches MsgView::AdaptorTransfer { amount, .. } && amount == info.funds@[0].amount
            &&& msgs[1] matches MsgView::BurnTokens { amount, .. } && amount == info.funds@[0]@
        }),
{
}

/// Law: a redeem request with more than one coin is refused with
/// `SuperfluousFundsProvided` once its recipient checks out.
pub proof fn law_redeem_refuses_several_coins(
    env: Env,
    info: MessageInfo,
    recipient: String,
    registered: bool,
)
    requires
        info.funds.len() > 1,
    ensures
        redeem_outcome(env, info, Ok(recipient), registered)
            == Err::<Seq<MsgView>, ContractError>(ContractError::SuperfluousFundsProvided),
{
}

/// Every fee coin is paid exactly when the whole fee is.
proof fn lemma_fee_paid_coin_by_coin(required: Seq<Coin>, provided: Seq<Coin>, k: int)
    requires
        fee_payment(required, provided) is Ok,
        0 <= k < required.len(),
    ensures
        coin_payment(required[k], provided) is Ok,
    decreases required.len(),
{
    if k + 1 < required.len() {
        assert(required.drop_last()[k] == required[k]);
        lemma_fee_paid_coin_by_coin(required.drop_last(), provided, k);
    }
}

/// Law: an accepted registration was paid with no more coins than the fee has,
/// and for every coin of the fee the first coin sent in its denom carries
/// exactly its amount.
pub proof fn law_register_pays_fee_exactly(
    env: Env,
    info: MessageInfo,
    cw20: Seq<char>,
    required: Vec<Coin>,
    is_cw20: bool,
)
    requires
        register_outcome(env, info, cw20, Ok(required), is_cw20) is Ok,
    ensures
        is_cw20,
        info.funds.len() <= required.len(),
        forall|k: int| 0 <= k < required.len() ==> exists|i: int|
            0 <= i < info.funds.len()
            && #[trigger] info.funds@[i].denom@ == (#[trigger] required@[k]).denom@
            && info.funds@[i].amount == required@[k].amount,
{
    assert forall|k: int| 0 <= k < required.len() implies exists|i: int|
        0 <= i < info.funds.len()
        && #[trigger] info.funds@[i].denom@ == (#[trigger] required@[k]).denom@
        && info.funds@[i].amount == required@[k].amount
    by {
        lemma_fee_paid_coin_by_coin(required@, info.funds@, k);
        let i = choose|i: int| crate::execute_register::is_first_of_denom(info.funds@, required@[k].denom@, i);
        assert(info.funds@[i].denom@ == required@[k].denom@);
    }
}

/// Law: the denom that registering a CW20 contract creates,
/// `factory/{sender}/{subdenom}`, is the denom that transfers from that
/// contract mint and that metadata updates for it describe.
pub proof fn law_registered_denom_is_minted_denom(
    env: Env,
    info: MessageInfo,
    cw20: Seq<char>,
    fee: Result<Vec<Coin>, ContractError>,
    deposit: MessageInfo,
    rg_sender: Seq<char>,
    amount: u128,
    token: TokenInfo,
)
    requires
        register_outcome(env, info, cw20, fee, true) is Ok,
        deposit.sender@ == cw20,
        deposit.funds.len() == 0,
    ensures
        ({
            let created = denom_of(env.contract_address@, cw20);
            &&& register_outcome(env, info, cw20, fee, true)->Ok_0
                == seq![MsgView::CreateDenom { sender: env.contract_address@, subdenom: cw20 }]
            &&& receive_outcome(env, deposit, rg_sender, amount, true)->Ok_0[0]
                matches MsgView::MintTokens { amount: minted, .. } && minted.denom == created
            &&& update_metadata_outcome(env, cw20, true, Ok(token))->Ok_0[0]
                matches MsgView::SetTokenMetadata { denom, .. } && denom == created
        }),
{
}

/// Law: a `RegisterRG` request registers its CW20 contract exactly when it is
/// accepted; any other answer, and any other request, leaves the registry as it was.
pub proof fn law_registration_only_when_accepted(
    registry: Set<Seq<char>>,
    msg: ExecuteMsg,
    r: Result<Seq<MsgView>, ContractError>,
)
    ensures
        registry_after(registry, registration_of(msg, r)) == match msg {
            ExecuteMsg::RegisterRG { addr } => if r is Ok {
                registry.insert(addr@)
            } else {
                registry
            },
            _ => registry,
        },
{
}

/// Law: once registering the CW20 contract `addr` was accepted, the adapter
/// serves it: a transfer from it without funds is minted, a redeem of its
/// adapter denom is paid out through it, and its metadata can be updated, when
/// the host answers the registry question from the registry after the
/// registration.
pub proof fn law_registration_enables_the_adapter(
    env: Env,
    register: MessageInfo,
    addr: String,
    fee: Result<Vec<Coin>, ContractError>,
    registry: Set<Seq<char>>,
    deposit: MessageInfo,
    rg_sender: Seq<char>,
    amount: u128,
    redeem: MessageInfo,
    recipient: String,
    token: TokenInfo,
)
    requires
        register_outcome(env, register, addr@, fee, true) is Ok,
        is_denom_part(env.contract_address@),
        is_denom_part(addr@),
        deposit.sender@ == addr@,
        deposit.funds.len() == 0,
        redeem.funds.len() == 1,
        redeem.funds@[0].denom@ == denom_of(env.contract_address@, addr@),
    ensures
        ({
            let after = registry_after(
                registry,
                registration_of(
                    ExecuteMsg::RegisterRG { addr },
                    register_outcome(env, register, addr@, fee, true),
                ),
            );
            &&& after.contains(addr@)
            &&& receive_outcome(env, deposit, rg_sender, amount, after.contains(deposit.sender@)) is Ok
            &&& redeem_outcome(env, redeem, Ok(recipient), after.contains(redeemed_cw20(redeem))) is Ok
            &&& redeemed_cw20(redeem) == addr@
            &&& update_metadata_outcome(env, addr@, after.contains(addr@), Ok(token)) is Ok
        }),
{
    law_denom_round_trip(env.contract_address@, addr@);
}

/// Law: when the recipient of a redeem request does not check out, the request
/// is refused with that very error, whatever funds came along and whatever the
/// registry holds: nothing is burnt and nothing is transferred.
pub proof fn law_redeem_refuses_a_bad_recipient(
    env: Env,
    info: MessageInfo,
    e: ContractError,
    registered: bool,
)
    ensures
        redeem_outcome(env, info, Err(e), registered) == Err::<Seq<MsgView>, ContractError>(e),
{
}

/// Law: a CW20 transfer without funds from a contract that is not registered
/// is refused with `ContractNotRegistered`, whatever the amount and whoever it
/// is for.
pub proof fn law_receive_refuses_unregistered_contracts(
    env: Env,
    info: MessageInfo,
    rg_sender: Seq<char>,
    amount: u128,
)
    requires
        info.funds.len() == 0,
    ensures
        receive_outcome(env, info, rg_sender, amount, false)
            == Err::<Seq<MsgView>, ContractError>(ContractError::ContractNotRegistered),
{
}

/// Law: an accepted metadata update sets, on the adapter denom of the CW20
/// contract, exactly the name, symbol and decimals that the contract reported.
pub proof fn law_metadata_copies_the_token_info(env: Env, cw20: Seq<char>, token: TokenInfo)
    ensures
        update_metadata_outcome(env, cw20, true, Ok(token)) is Ok,
        update_metadata_outcome(env, cw20, true, Ok(token))->Ok_0.len() == 1,
        update_metadata_outcome(env, cw20, true, Ok(token))->Ok_0[0] matches MsgView::SetTokenMetadata {
            denom, name, symbol, decimals
        } && denom == denom_of(env.contract_address@, cw20) && name == token.name@
            && symbol == token.symbol@ && decimals == token.decimals,
{
}

/// Law: executing an accepted `Receive` mints exactly its amount of the sending
/// CW20 contract's adapter denom to the user that the message names, and to
/// nobody else.
pub proof fn law_execute_receive_mints_to_the_named_user<
    V: Fn(&String) -> Result<String, ContractError>,
    R: Fn(&String) -> bool,
    T: Fn(&String) -> Result<TokenInfo, ContractError>,
    Q: Fn() -> Result<Vec<Coin>, ContractError>,
>(
    validate_addr: V,
    is_registered: R,
    fetch_token_info: T,
    query_fee: Q,
    env: Env,
    info: MessageInfo,
    sender: String,
    amount: u128,
    msg: Vec<u8>,
    r: Result<Seq<MsgView>, ContractError>,
)
    requires
        execute_ensures(
            validate_addr,
            is_registered,
            fetch_token_info,
            query_fee,
            env,
            info,
            ExecuteMsg::Receive { sender, amount, msg },
            r,
        ),
        r is Ok,
    ensures
        info.funds.len() == 0,
        r->Ok_0 == seq![MsgView::MintTokens {
            sender: env.contract_address@,
            amount: CoinView { denom: denom_of(env.contract_address@, info.sender@), amount },
            mint_to: sender@,
        }],
{
    assert(receive_ensures(is_registered, env, info, sender@, amount, r));
    let registered = choose|registered: bool|
        (info.funds.len() == 0 ==> call_ensures(is_registered, (&info.sender,), registered))
        && r == receive_outcome(env, info, sender@, amount, registered);
}

/// Every fee coin paid exactly means the whole fee is.
proof fn lemma_fee_paid_when_every_coin_is(required: Seq<Coin>, provided: Seq<Coin>)
    requires
        forall|k: int| 0 <= k < required.len() ==> coin_payment(#[trigger] required[k], provided) is Ok,
    ensures
        fee_payment(required, provided) is Ok,
    decreases required.len(),
{
    if required.len() > 0 {
        let rest = required.drop_last();
        assert forall|k: int| 0 <= k < rest.len() implies coin_payment(#[trigger] rest[k], provided) is Ok by {
            assert(rest[k] == required[k]);
        }
        lemma_fee_paid_when_every_coin_is(rest, provided);
        assert(coin_payment(required[required.len() - 1], provided) is Ok);
    }
}

/// Law: funds that pay the fee exactly are accepted. When no more coins come
/// than the fee has, and for every fee coin the first coin sent in its denom
/// carries exactly its amount, registering a CW20 contract creates its denom;
/// the order in which the coins are sent does not matter.
pub proof fn law_register_accepts_the_exact_fee(
    env: Env,
    info: MessageInfo,
    cw20: Seq<char>,
    required: Vec<Coin>,
)
    requires
        info.funds.len() <= required.len(),
        forall|k: int| 0 <= k < required.len() ==> exists|i: int|
            0 <= i < info.funds.len()
            && #[trigger] info.funds@[i].denom@ == (#[trigger] required@[k]).denom@
            && info.funds@[i].amount == required@[k].amount
            && forall|j: int| 0 <= j < i ==> info.funds@[j].denom@ != required@[k].denom@,
    ensures
        register_outcome(env, info, cw20, Ok(required), true)
            == Ok::<Seq<MsgView>, ContractError>(seq![MsgView::CreateDenom {
                sender: env.contract_address@,
                subdenom: cw20,
            }]),
{
    assert forall|k: int| 0 <= k < required.len() implies coin_payment(#[trigger] required@[k], info.funds@) is Ok by {
        let i = choose|i: int|
            0 <= i < info.funds.len()
            && #[trigger] info.funds@[i].denom@ == required@[k].denom@
            && info.funds@[i].amount == required@[k].amount
            && forall|j: int| 0 <= j < i ==> info.funds@[j].denom@ != required@[k].denom@;
        assert(is_first_of_denom(info.funds@, required@[k].denom@, i));
        let c = choose|c: int| is_first_of_denom(info.funds@, required@[k].denom@, c);
        if c < i {
            assert(info.funds@[c].denom@ != required@[k].denom@);
        } else if i < c {
            assert(info.funds@[i].denom@ != required@[k].denom@);
        }
    }
    lemma_fee_paid_when_every_coin_is(required@, info.funds@);
}

} // verus!
