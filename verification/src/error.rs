use vstd::prelude::*;

verus! {

/// Errors that the adapter answers a refused request with.
#[derive(Debug, PartialEq, Eq)]
pub enum ContractError {
    /// A failure reported by the chain (an address check, a query), with its text.
    Std(String),
    /// The CW20 contract named by the request was never registered with the adapter.
    ContractNotRegistered,
    /// More funds were sent than the request may carry.
    SuperfluousFundsProvided,
    /// No token-factory token of an adapter denom came with a redeem request.
    NoRegisteredTokensProvided,
    /// The address, or the denom, does not name a CW20 contract.
    NotCw20Address,
    /// The funds sent do not pay the fee for creating a new denom.
    NotEnoughBalanceToPayDenomCreationFee,
}

/// The text of an error, as the contract reports it.
pub open spec fn error_text(e: ContractError) -> Seq<char> {
    match e {
        ContractError::Std(msg) => msg@,
        ContractError::ContractNotRegistered => "Contract not registered"@,
        ContractError::SuperfluousFundsProvided => "Superfluous funds provided"@,
        ContractError::NoRegisteredTokensProvided => "No registered tokens provided"@,
        ContractError::NotCw20Address => "Address is not a cw20 contract"@,
        ContractError::NotEnoughBalanceToPayDenomCreationFee =>
            "Not enough balance to pay for denom creation fee"@,
    }
}

impl ContractError {
    /// The text of the error.
    pub fn to_string(&self) -> (text: String)
        ensures
            text@ == error_text(*self),
    {
        match self {
            ContractError::Std(msg) => msg.clone(),
            ContractError::ContractNotRegistered => "Contract not registered".to_owned(),
            ContractError::SuperfluousFundsProvided => "Superfluous funds provided".to_owned(),
            ContractError::NoRegisteredTokensProvided => "No registered tokens provided".to_owned(),
            ContractError::NotCw20Address => "Address is not a cw20 contract".to_owned(),
            ContractError::NotEnoughBalanceToPayDenomCreationFee =>
                "Not enough balance to pay for denom creation fee".to_owned(),
        }
    }
}

} // verus!
