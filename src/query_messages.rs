use vstd::prelude::*;

use crate::msg::{ContractStatusLevel, Snip20};

verus! {

/// Reads accepted from callers.
#[derive(Debug)]
pub enum QueryMsg {
    Config,
    SecretMoneroBalance { address: String, viewing_key: String },
    SwapDetails { address: String, viewing_key: String, nonce: u32 },
}

#[derive(Debug)]
pub enum QueryResponse {
    Config {
        admin: String,
        minters: Vec<String>,
        min_swap: u128,
        secret_monero: Snip20,
        status: ContractStatusLevel,
    },
    SecretMoneroBalance { balance: u128 },
    SwapDetails { to_monero_address: String, from_secret_address: String, amount: u128 },
    /// The viewing key is not set or does not match; the two are not told apart.
    ViewingKeyError,
}

/// What a read comes to: either an answer, or a balance lookup that the token
/// service must answer, made with this contract's own credential.
#[derive(Debug)]
pub enum QueryOutcome {
    Response(QueryResponse),
    LookupBalance { address: String, key: String, token: Snip20 },
}

} // verus!
