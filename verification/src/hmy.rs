//! The chain-specific RPC namespace: one request builder per remote method.
//!
//! Each method states exactly which method name and which positional
//! parameters, in which order, the request carries. Methods with a `_v2`
//! suffix use the second chain-specific naming variant of the same
//! operation.

use vstd::prelude::*;

use crate::filter::{new_filter_request, FilterKind};
use crate::rpc::{Dialect, Param, RpcCall};
use crate::types::{
    Address, BlockId, BlockNumber, CallRequest, LogFilter, TransactionId, TransactionRequest, H256,
    U256,
};

verus! {

/// The block position a read defaults to when the caller names none.
pub open spec fn or_latest(block: Option<BlockNumber>) -> BlockNumber {
    match block {
        Some(b) => b,
        None => BlockNumber::Latest,
    }
}

/// As [`or_latest`], for reads that name a block by id.
pub open spec fn or_latest_ref(block: Option<BlockId>) -> BlockId {
    match block {
        Some(b) => b,
        None => BlockId::Number(BlockNumber::Latest),
    }
}

fn no_params() -> (r: Vec<Param>)
    ensures
        r@ =~= Seq::<Param>::empty(),
{
    Vec::new()
}

fn params1(a: Param) -> (r: Vec<Param>)
    ensures
        r@ =~= seq![a],
{
    let mut v: Vec<Param> = Vec::new();
    v.push(a);
    v
}

fn params2(a: Param, b: Param) -> (r: Vec<Param>)
    ensures
        r@ =~= seq![a, b],
{
    let mut v: Vec<Param> = Vec::new();
    v.push(a);
    v.push(b);
    v
}

fn params3(a: Param, b: Param, c: Param) -> (r: Vec<Param>)
    ensures
        r@ =~= seq![a, b, c],
{
    let mut v: Vec<Param> = Vec::new();
    v.push(a);
    v.push(b);
    v.push(c);
    v
}

fn latest_or(block: Option<BlockNumber>) -> (r: BlockNumber)
    ensures
        r == or_latest(block),
{
    match block {
        Some(b) => b,
        None => BlockNumber::Latest,
    }
}

/// The chain-specific RPC namespace, a builder of one request per remote
/// method.
#[derive(Debug, Clone, PartialEq, Eq)]
pub struct Hmy {}

impl Hmy {
    pub fn new() -> (r: Hmy) {
        Hmy {}
    }

    /// Get current block number.
    pub fn block_number(&self) -> (r: RpcCall)
        ensures
            r.method@ == "hmy_blockNumber"@,
            r.params@ =~= Seq::<Param>::empty(),
    {
        RpcCall { method: "hmy_blockNumber", params: no_params() }
    }

    /// Get current block number, second naming variant.
    pub fn block_number_v2(&self) -> (r: RpcCall)
        ensures
            r.method@ == "hmyv2_blockNumber"@,
            r.params@ =~= Seq::<Param>::empty(),
    {
        RpcCall { method: "hmyv2_blockNumber", params: no_params() }
    }

    /// Call a constant method of a contract without changing chain state.
    pub fn call(&self, req: CallRequest, block: Option<BlockId>) -> (r: RpcCall)
        ensures
            r.method@ == "hmy_call"@,
            r.params@ =~= seq![Param::Call(req), Param::BlockRef(or_latest_ref(block))],
    {
        let b = match block {
            Some(b) => b,
            None => BlockId::Number(BlockNumber::Latest),
        };
        RpcCall { method: "hmy_call", params: params2(Param::Call(req), Param::BlockRef(b)) }
    }

    /// Call a contract without changing chain state, to estimate gas usage.
    /// The block parameter is sent only when the caller names one.
    pub fn estimate_gas(&self, req: CallRequest, block: Option<BlockNumber>) -> (r: RpcCall)
        ensures
            r.method@ == "hmy_estimateGas"@,
            block matches Some(b) ==> r.params@ =~= seq![Param::Call(req), Param::Block(b)],
            block is None ==> r.params@ =~= seq![Param::Call(req)],
    {
        let params = match block {
            Some(b) => params2(Param::Call(req), Param::Block(b)),
            None => params1(Param::Call(req)),
        };
        RpcCall { method: "hmy_estimateGas", params }
    }

    /// Get the current recommended gas price.
    pub fn gas_price(&self) -> (r: RpcCall)
        ensures
            r.method@ == "hmy_gasPrice"@,
            r.params@ =~= Seq::<Param>::empty(),
    {
        RpcCall { method: "hmy_gasPrice", params: no_params() }
    }

    /// Get the current recommended gas price, second naming variant.
    pub fn gas_price_v2(&self) -> (r: RpcCall)
        ensures
            r.method@ == "hmyv2_gasPrice"@,
            r.params@ =~= Seq::<Param>::empty(),
    {
        RpcCall { method: "hmyv2_gasPrice", params: no_params() }
    }

    /// Get the balance of the given address.
    pub fn balance(&self, address: Address, block: Option<BlockNumber>) -> (r: RpcCall)
        ensures
            r.method@ == "hmy_getBalance"@,
            r.params@ =~= seq![Param::Address(address), Param::Block(or_latest(block))],
    {
        let b = latest_or(block);
        RpcCall { method: "hmy_getBalance", params: params2(Param::Address(address), Param::Block(b)) }
    }

    /// Get the balance of the given address, second naming variant.
    pub fn balance_v2(&self, address: Address, block: Option<BlockNumber>) -> (r: RpcCall)
        ensures
            r.method@ == "hmyv2_getBalance"@,
            r.params@ =~= seq![Param::Address(address), Param::Block(or_latest(block))],
    {
        let b = latest_or(block);
        RpcCall {
            method: "hmyv2_getBalance",
            params: params2(Param::Address(address), Param::Block(b)),
        }
    }

    /// Get all logs matching the given filter criteria.
    pub fn logs(&self, filter: LogFilter) -> (r: RpcCall)
        ensures
            r.method@ == "hmy_getLogs"@,
            r.params@ =~= seq![Param::Logs(filter)],
    {
        RpcCall { method: "hmy_getLogs", params: params1(Param::Logs(filter)) }
    }

    /// Get block details with transaction hashes.
    pub fn block(&self, block: BlockId) -> (r: RpcCall)
        ensures
            block matches BlockId::Hash(h) ==> (r.method@ == "hmy_getBlockByHash"@ && r.params@
                =~= seq![Param::Hash(h), Param::Bool(false)]),
            block matches BlockId::Number(n) ==> (r.method@ == "hmy_getBlockByNumber"@
                && r.params@ =~= seq![Param::Block(n), Param::Bool(false)]),
    {
        match block {
            BlockId::Hash(h) => RpcCall {
                method: "hmy_getBlockByHash",
                params: params2(Param::Hash(h), Param::Bool(false)),
            },
            BlockId::Number(n) => RpcCall {
                method: "hmy_getBlockByNumber",
                params: params2(Param::Block(n), Param::Bool(false)),
            },
        }
    }

    /// Get block details with transaction hashes, second naming variant.
    pub fn block_v2(&self, block: BlockId) -> (r: RpcCall)
        ensures
            block matches BlockId::Hash(h) ==> (r.method@ == "hmyv2_getBlockByHash"@ && r.params@
                =~= seq![Param::Hash(h), Param::Bool(false)]),
            block matches BlockId::Number(n) ==> (r.method@ == "hmyv2_getBlockByNumber"@
                && r.params@ =~= seq![Param::Block(n), Param::Bool(false)]),
    {
        match block {
            BlockId::Hash(h) => RpcCall {
                method: "hmyv2_getBlockByHash",
                params: params2(Param::Hash(h), Param::Bool(false)),
            },
            BlockId::Number(n) => RpcCall {
                method: "hmyv2_getBlockByNumber",
                params: params2(Param::Block(n), Param::Bool(false)),
            },
        }
    }

    /// Get block details with full transaction objects.
    pub fn block_with_txs(&self, block: BlockId) -> (r: RpcCall)
        ensures
            block matches BlockId::Hash(h) ==> (r.method@ == "hmy_getBlockByHash"@ && r.params@
                =~= seq![Param::Hash(h), Param::Bool(true)]),
            block matches BlockId::Number(n) ==> (r.method@ == "hmy_getBlockByNumber"@
                && r.params@ =~= seq![Param::Block(n), Param::Bool(true)]),
    {
        match block {
            BlockId::Hash(h) => RpcCall {
                method: "hmy_getBlockByHash",
                params: params2(Param::Hash(h), Param::Bool(true)),
            },
            BlockId::Number(n) => RpcCall {
                method: "hmy_getBlockByNumber",
                params: params2(Param::Block(n), Param::Bool(true)),
            },
        }
    }

    /// Get block details with full transaction objects, second naming
    /// variant.
    pub fn block_with_txs_v2(&self, block: BlockId) -> (r: RpcCall)
        ensures
            block matches BlockId::Hash(h) ==> (r.method@ == "hmyv2_getBlockByHash"@ && r.params@
                =~= seq![Param::Hash(h), Param::Bool(true)]),
            block matches BlockId::Number(n) ==> (r.method@ == "hmyv2_getBlockByNumber"@
                && r.params@ =~= seq![Param::Block(n), Param::Bool(true)]),
    {
        match block {
            BlockId::Hash(h) => RpcCall {
                method: "hmyv2_getBlockByHash",
                params: params2(Param::Hash(h), Param::Bool(true)),
            },
            BlockId::Number(n) => RpcCall {
                method: "hmyv2_getBlockByNumber",
                params: params2(Param::Block(n), Param::Bool(true)),
            },
        }
    }

    /// Get the number of transactions in a block.
    pub fn block_transaction_count(&self, block: BlockId) -> (r: RpcCall)
        ensures
            block matches BlockId::Hash(h) ==> (r.method@ == "hmy_getBlockTransactionCountByHash"@
                && r.params@ =~= seq![Param::Hash(h)]),
            block matches BlockId::Number(n) ==> (r.method@
                == "hmy_getBlockTransactionCountByNumber"@ && r.params@ =~= seq![Param::Block(n)]),
    {
        match block {
            BlockId::Hash(h) => RpcCall {
                method: "hmy_getBlockTransactionCountByHash",
                params: params1(Param::Hash(h)),
            },
            BlockId::Number(n) => RpcCall {
                method: "hmy_getBlockTransactionCountByNumber",
                params: params1(Param::Block(n)),
            },
        }
    }

    /// Get the number of transactions in a block, second naming variant.
    pub fn block_transaction_count_v2(&self, block: BlockId) -> (r: RpcCall)
        ensures
            block matches BlockId::Hash(h) ==> (r.method@
                == "hmyv2_getBlockTransactionCountByHash"@ && r.params@ =~= seq![Param::Hash(h)]),
            block matches BlockId::Number(n) ==> (r.method@
                == "hmyv2_getBlockTransactionCountByNumber"@ && r.params@
                =~= seq![Param::Block(n)]),
    {
        match block {
            BlockId::Hash(h) => RpcCall {
                method: "hmyv2_getBlockTransactionCountByHash",
                params: params1(Param::Hash(h)),
            },
            BlockId::Number(n) => RpcCall {
                method: "hmyv2_getBlockTransactionCountByNumber",
                params: params1(Param::Block(n)),
            },
        }
    }

    /// Get the code stored under the given address.
    pub fn code(&self, address: Address, block: Option<BlockNumber>) -> (r: RpcCall)
        ensures
            r.method@ == "hmy_getCode"@,
            r.params@ =~= seq![Param::Address(address), Param::Block(or_latest(block))],
    {
        let b = latest_or(block);
        RpcCall { method: "hmy_getCode", params: params2(Param::Address(address), Param::Block(b)) }
    }

    /// Get one storage entry of a contract.
    pub fn storage(&self, address: Address, idx: U256, block: Option<BlockNumber>) -> (r: RpcCall)
        ensures
            r.method@ == "hmy_getStorageAt"@,
            r.params@ =~= seq![
                Param::Address(address),
                Param::Quantity(idx),
                Param::Block(or_latest(block)),
            ],
    {
        let b = latest_or(block);
        RpcCall {
            method: "hmy_getStorageAt",
            params: params3(Param::Address(address), Param::Quantity(idx), Param::Block(b)),
        }
    }

    /// Get the sending account's nonce.
    pub fn transaction_count(&self, address: Address, block: Option<BlockNumber>) -> (r: RpcCall)
        ensures
            r.method@ == "hmy_getTransactionCount"@,
            r.params@ =~= seq![Param::Address(address), Param::Block(or_latest(block))],
    {
        let b = latest_or(block);
        RpcCall {
            method: "hmy_getTransactionCount",
            params: params2(Param::Address(address), Param::Block(b)),
        }
    }

    /// Get the sending account's nonce, second naming variant.
    pub fn transaction_count_v2(&self, address: Address, block: Option<BlockNumber>) -> (r: RpcCall)
        ensures
            r.method@ == "hmyv2_getTransactionCount"@,
            r.params@ =~= seq![Param::Address(address), Param::Block(or_latest(block))],
    {
        let b = latest_or(block);
        RpcCall {
            method: "hmyv2_getTransactionCount",
            params: params2(Param::Address(address), Param::Block(b)),
        }
    }

    /// Get a transaction by hash, or by block and index within it.
    pub fn transaction(&self, id: TransactionId) -> (r: RpcCall)
        ensures
            id matches TransactionId::Hash(h) ==> (r.method@ == "hmy_getTransactionByHash"@
                && r.params@ =~= seq![Param::Hash(h)]),
            id matches TransactionId::Block(BlockId::Hash(h), idx) ==> (r.method@
                == "hmy_getTransactionByBlockHashAndIndex"@ && r.params@
                =~= seq![Param::Hash(h), Param::Index(idx)]),
            id matches TransactionId::Block(BlockId::Number(n), idx) ==> (r.method@
                == "hmy_getTransactionByBlockNumberAndIndex"@ && r.params@
                =~= seq![Param::Block(n), Param::Index(idx)]),
    {
        match id {
            TransactionId::Hash(h) => RpcCall {
                method: "hmy_getTransactionByHash",
                params: params1(Param::Hash(h)),
            },
            TransactionId::Block(BlockId::Hash(h), idx) => RpcCall {
                method: "hmy_getTransactionByBlockHashAndIndex",
                params: params2(Param::Hash(h), Param::Index(idx)),
            },
            TransactionId::Block(BlockId::Number(n), idx) => RpcCall {
                method: "hmy_getTransactionByBlockNumberAndIndex",
                params: params2(Param::Block(n), Param::Index(idx)),
            },
        }
    }

    /// Get a transaction by hash, or by block and index within it; second
    /// naming variant.
    pub fn transaction_v2(&self, id: TransactionId) -> (r: RpcCall)
        ensures
            id matches TransactionId::Hash(h) ==> (r.method@ == "hmyv2_getTransactionByHash"@
                && r.params@ =~= seq![Param::Hash(h)]),
            id matches TransactionId::Block(BlockId::Hash(h), idx) ==> (r.method@
                == "hmyv2_getTransactionByBlockHashAndIndex"@ && r.params@
                =~= seq![Param::Hash(h), Param::Index(idx)]),
            id matches TransactionId::Block(BlockId::Number(n), idx) ==> (r.method@
                == "hmyv2_getTransactionByBlockNumberAndIndex"@ && r.params@
                =~= seq![Param::Block(n), Param::Index(idx)]),
    {
        match id {
            TransactionId::Hash(h) => RpcCall {
                method: "hmyv2_getTransactionByHash",
                params: params1(Param::Hash(h)),
            },
            TransactionId::Block(BlockId::Hash(h), idx) => RpcCall {
                method: "hmyv2_getTransactionByBlockHashAndIndex",
                params: params2(Param::Hash(h), Param::Index(idx)),
            },
            TransactionId::Block(BlockId::Number(n), idx) => RpcCall {
                method: "hmyv2_getTransactionByBlockNumberAndIndex",
                params: params2(Param::Block(n), Param::Index(idx)),
            },
        }
    }

    /// Get the receipt of a mined transaction.
    pub fn transaction_receipt(&self, hash: H256) -> (r: RpcCall)
        ensures
            r.method@ == "hmy_getTransactionReceipt"@,
            r.params@ =~= seq![Param::Hash(hash)],
    {
        RpcCall { method: "hmy_getTransactionReceipt", params: params1(Param::Hash(hash)) }
    }

    /// Get the receipt of a mined transaction, second naming variant.
    pub fn transaction_receipt_v2(&self, hash: H256) -> (r: RpcCall)
        ensures
            r.method@ == "hmyv2_getTransactionReceipt"@,
            r.params@ =~= seq![Param::Hash(hash)],
    {
        RpcCall { method: "hmyv2_getTransactionReceipt", params: params1(Param::Hash(hash)) }
    }

    /// Register a new-block filter on the node.
    pub fn new_block_filter(&self) -> (r: RpcCall)
        ensures
            r.method@ == "hmy_newBlockFilter"@,
            r.params@ =~= Seq::<Param>::empty(),
    {
        new_filter_request(Dialect::Hmy, FilterKind::NewBlocks)
    }

    /// Register a new-pending-transaction filter on the node.
    pub fn new_pending_transaction_filter(&self) -> (r: RpcCall)
        ensures
            r.method@ == "hmy_newPendingTransactionFilter"@,
            r.params@ =~= Seq::<Param>::empty(),
    {
        new_filter_request(Dialect::Hmy, FilterKind::NewPendingTransactions)
    }

    /// Submit a transaction for the node to sign and broadcast.
    pub fn send_transaction(&self, tx: TransactionRequest) -> (r: RpcCall)
        ensures
            r.method@ == "eth_sendTransaction"@,
            r.params@ =~= seq![Param::Transaction(tx)],
    {
        RpcCall { method: "eth_sendTransaction", params: params1(Param::Transaction(tx)) }
    }

    /// Broadcast an already signed, rlp-encoded transaction.
    pub fn send_raw_transaction(&self, rlp: Vec<u8>) -> (r: RpcCall)
        ensures
            r.method@ == "hmy_sendRawTransaction"@,
            r.params@ =~= seq![Param::Data(rlp)],
    {
        RpcCall { method: "hmy_sendRawTransaction", params: params1(Param::Data(rlp)) }
    }

    /// Get the node's synchronisation status.
    pub fn syncing(&self) -> (r: RpcCall)
        ensures
            r.method@ == "hmy_syncing"@,
            r.params@ =~= Seq::<Param>::empty(),
    {
        RpcCall { method: "hmy_syncing", params: no_params() }
    }
}

} // verus!
