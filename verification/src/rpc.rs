//! Typed JSON-RPC requests and the dialect method-name table.
//!
//! A request is a remote method name plus an ordered list of positional
//! parameters, each carried as a typed value. Turning a [`Param`] into its
//! JSON wire form, sending it, and decoding the reply are left to the caller;
//! everything the engine decides — which method, which parameters, in which
//! order — is stated here.

use vstd::prelude::*;

use crate::types::{
    Address, BlockId, BlockNumber, CallRequest, LogFilter, TransactionRequest, H256, U256,
};

verus! {

/// One positional parameter of a JSON-RPC request.
#[derive(Debug, Clone, PartialEq, Eq)]
pub enum Param {
    /// The node-assigned id of a server-side filter.
    FilterId(String),
    Hash(H256),
    Address(Address),
    Quantity(U256),
    /// A plain numeric index, such as a transaction's position in a block.
    Index(u64),
    Block(BlockNumber),
    BlockRef(BlockId),
    Bool(bool),
    /// Raw bytes, hex-encoded on the wire.
    Data(Vec<u8>),
    Call(CallRequest),
    Transaction(TransactionRequest),
    Logs(LogFilter),
}

/// A complete JSON-RPC request.
#[derive(Debug, Clone, PartialEq, Eq)]
pub struct RpcCall {
    pub method: &'static str,
    pub params: Vec<Param>,
}

/// The logical operations of the polling and confirmation engine. Each maps
/// to a dialect-specific method name through [`method_name`].
#[derive(Debug, Clone, Copy, PartialEq, Eq, Structural)]
pub enum RpcOp {
    BlockNumber,
    NewLogFilter,
    NewBlockFilter,
    NewPendingTransactionFilter,
    PollFilter,
    FilterLogs,
    UninstallFilter,
    TransactionReceipt,
    SendRawTransaction,
}

/// The RPC dialect a node speaks: the Ethereum-style names or the
/// chain-specific ones. The engine is identical under either; only this
/// table changes.
#[derive(Debug, Clone, Copy, PartialEq, Eq, Structural)]
pub enum Dialect {
    Eth,
    Hmy,
}

/// The method-name table, as contracts see it.
pub open spec fn spec_method_name(d: Dialect, op: RpcOp) -> Seq<char> {
    match d {
        Dialect::Eth => match op {
            RpcOp::BlockNumber => "eth_blockNumber"@,
            RpcOp::NewLogFilter => "eth_newFilter"@,
            RpcOp::NewBlockFilter => "eth_newBlockFilter"@,
            RpcOp::NewPendingTransactionFilter => "eth_newPendingTransactionFilter"@,
            RpcOp::PollFilter => "eth_getFilterChanges"@,
            RpcOp::FilterLogs => "eth_getFilterLogs"@,
            RpcOp::UninstallFilter => "eth_uninstallFilter"@,
            RpcOp::TransactionReceipt => "eth_getTransactionReceipt"@,
            RpcOp::SendRawTransaction => "eth_sendRawTransaction"@,
        },
        Dialect::Hmy => match op {
            RpcOp::BlockNumber => "hmy_blockNumber"@,
            RpcOp::NewLogFilter => "hmy_newFilter"@,
            RpcOp::NewBlockFilter => "hmy_newBlockFilter"@,
            RpcOp::NewPendingTransactionFilter => "hmy_newPendingTransactionFilter"@,
            RpcOp::PollFilter => "hmy_getFilterChanges"@,
            RpcOp::FilterLogs => "hmy_getFilterLogs"@,
            RpcOp::UninstallFilter => "hmy_uninstallFilter"@,
            RpcOp::TransactionReceipt => "hmy_getTransactionReceipt"@,
            RpcOp::SendRawTransaction => "hmy_sendRawTransaction"@,
        },
    }
}

/// The method-name table. One engine serves both dialects by substituting
/// names here, never by duplicating logic.
pub fn method_name(d: Dialect, op: RpcOp) -> (r: &'static str)
    ensures
        r@ == spec_method_name(d, op),
{
    match d {
        Dialect::Eth => match op {
            RpcOp::BlockNumber => "eth_blockNumber",
            RpcOp::NewLogFilter => "eth_newFilter",
            RpcOp::NewBlockFilter => "eth_newBlockFilter",
            RpcOp::NewPendingTransactionFilter => "eth_newPendingTransactionFilter",
            RpcOp::PollFilter => "eth_getFilterChanges",
            RpcOp::FilterLogs => "eth_getFilterLogs",
            RpcOp::UninstallFilter => "eth_uninstallFilter",
            RpcOp::TransactionReceipt => "eth_getTransactionReceipt",
            RpcOp::SendRawTransaction => "eth_sendRawTransaction",
        },
        Dialect::Hmy => match op {
            RpcOp::BlockNumber => "hmy_blockNumber",
            RpcOp::NewLogFilter => "hmy_newFilter",
            RpcOp::NewBlockFilter => "hmy_newBlockFilter",
            RpcOp::NewPendingTransactionFilter => "hmy_newPendingTransactionFilter",
            RpcOp::PollFilter => "hmy_getFilterChanges",
            RpcOp::FilterLogs => "hmy_getFilterLogs",
            RpcOp::UninstallFilter => "hmy_uninstallFilter",
            RpcOp::TransactionReceipt => "hmy_getTransactionReceipt",
            RpcOp::SendRawTransaction => "hmy_sendRawTransaction",
        },
    }
}

/// What the caller hands back after executing one request: the decoded value
/// of the expected shape, or the stage at which the round trip failed.
#[derive(Debug, Clone, PartialEq, Eq)]
pub enum RpcOutcome<T> {
    /// The call succeeded and its result decoded into the expected shape.
    Value(T),
    /// The call itself failed at the network or connection layer.
    TransportFailed(String),
    /// The call returned, but its result could not be parsed.
    DecodeFailed(String),
}

} // verus!
