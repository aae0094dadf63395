//! The verified half of the contract-invocation layer.
//!
//! ABI encoding and decoding are an external collaborator's work: the caller
//! hands the already encoded call data in as plain bytes. What the engine
//! itself decides — how a call's options become the request object sent to
//! the node — is stated and checked here.

use vstd::prelude::*;

use crate::types::{Address, CallRequest, TransactionRequest, U256};

verus! {

/// Per-call options for a contract invocation; every field defaults to
/// "let the node decide".
#[derive(Debug, Clone, PartialEq, Eq)]
pub struct Options {
    pub gas: Option<U256>,
    pub gas_price: Option<U256>,
    pub value: Option<U256>,
    pub nonce: Option<U256>,
}

impl Default for Options {
    /// All fields left for the node to decide.
    fn default() -> (r: Options)
        ensures
            r == (Options { gas: None, gas_price: None, value: None, nonce: None }),
    {
        Options { gas: None, gas_price: None, value: None, nonce: None }
    }
}

/// The transaction a state-changing contract call submits: the encoded call
/// data goes to the contract's address, and each option is passed through
/// unchanged.
pub fn build_transaction_request(
    from: Address,
    contract: Address,
    data: Vec<u8>,
    options: Options,
) -> (r: TransactionRequest)
    ensures
        r == (TransactionRequest {
            from,
            to: Some(contract),
            gas: options.gas,
            gas_price: options.gas_price,
            value: options.value,
            nonce: options.nonce,
            data: Some(data),
        }),
{
    TransactionRequest {
        from,
        to: Some(contract),
        gas: options.gas,
        gas_price: options.gas_price,
        value: options.value,
        nonce: options.nonce,
        data: Some(data),
    }
}

/// The call object a read-only contract query or a gas estimate sends: the
/// encoded call data goes to the contract's address, and each option is
/// passed through unchanged.
pub fn build_call_request(
    from: Option<Address>,
    contract: Address,
    data: Vec<u8>,
    options: Options,
) -> (r: CallRequest)
    ensures
        r == (CallRequest {
            from,
            to: Some(contract),
            gas: options.gas,
            gas_price: options.gas_price,
            value: options.value,
            data: Some(data),
        }),
{
    CallRequest {
        from,
        to: Some(contract),
        gas: options.gas,
        gas_price: options.gas_price,
        value: options.value,
        data: Some(data),
    }
}

} // verus!
