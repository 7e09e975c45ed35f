use vstd::prelude::*;

verus! {

/// The message the adapter is instantiated with.
#[derive(Debug, Clone, PartialEq, Eq)]
pub struct InstantiateMsg {
    /// Address of the launchpad that registers CW20 contracts with the adapter.
    pub launchpad: String,
}

/// The message a CW20 transfer to the adapter may carry.
#[derive(Debug, Clone, PartialEq, Eq)]
pub struct ReceiveSubmsg {
    pub recipient: String,
}

/// The requests the adapter executes.
#[derive(Debug, Clone, PartialEq, Eq)]
pub enum ExecuteMsg {
    /// Impl of the Receiver CW-20 interface. Should be called by a CW-20 contract only (never
    /// directly). `msg` is ignored. The sender has already provided proof on the rg-cw20 for
    /// this adaptor action.
    Receive { sender: String, amount: u128, msg: Vec<u8> },
    /// Redeems token-factory tokens: sends rg-cw20 tokens to `recipient` (or to the sender if
    /// none is given), with the adaptor-transfer method of the rg-cw20 contract. No proof is
    /// needed, as the recipient cannot transfer further without one.
    RedeemAndTransfer { recipient: Option<String> },
    /// Updates the stored metadata of the denom of `addr`.
    UpdateMetadata { addr: String },
    /// Registers a new denom on the token factory; called by the launchpad.
    RegisterRG { addr: String },
}

/// The queries the adapter answers.
#[derive(Debug, Clone, PartialEq, Eq)]
pub enum QueryMsg {
    /// Returns the fee required to register a new token-factory denom.
    NewDenomFee {},
}

} // verus!
