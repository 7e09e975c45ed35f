//! Verified core of a CW20 adapter contract: it turns CW20 tokens that a
//! registered contract sends to the adapter into token-factory tokens of the
//! denom `factory/{adapter}/{cw20}`, and turns such tokens back into CW20
//! transfers. The chain itself (storage, address checks, queries) is reached
//! through host operations that the caller passes in.

pub mod error;
pub mod common;
pub mod msg;
pub mod execute_receive;
pub mod execute_redeem;
pub mod execute_metadata;
pub mod execute_register;
pub mod contract;
pub mod laws;
