//! Plain-value models of the chain data that the client reads and writes.
//!
//! Hashes, addresses and 256-bit quantities are carried as byte vectors with
//! a well-formedness predicate on their length, so that every contract can
//! speak about their contents directly.

use vstd::prelude::*;

verus! {

/// A 20-byte account address.
#[derive(Debug, Clone, PartialEq, Eq, Hash)]
pub struct Address {
    pub bytes: Vec<u8>,
}

impl Address {
    /// An address is exactly 20 bytes long.
    pub open spec fn wf(&self) -> bool {
        self.bytes@.len() == 20
    }

    pub fn new(bytes: Vec<u8>) -> (r: Address)
        requires
            bytes@.len() == 20,
        ensures
            r.wf(),
            r.bytes@ == bytes@,
    {
        Address { bytes }
    }
}

/// A 32-byte hash, used for blocks, transactions and storage values.
#[derive(Debug, Clone, PartialEq, Eq, Hash)]
pub struct H256 {
    pub bytes: Vec<u8>,
}

impl H256 {
    /// A hash is exactly 32 bytes long.
    pub open spec fn wf(&self) -> bool {
        self.bytes@.len() == 32
    }

    pub fn new(bytes: Vec<u8>) -> (r: H256)
        requires
            bytes@.len() == 32,
        ensures
            r.wf(),
            r.bytes@ == bytes@,
    {
        H256 { bytes }
    }
}

/// An unsigned 256-bit quantity (balance, gas, nonce), big-endian.
#[derive(Debug, Clone, PartialEq, Eq, Hash)]
pub struct U256 {
    pub bytes: Vec<u8>,
}

impl U256 {
    /// A quantity is exactly 32 big-endian bytes.
    pub open spec fn wf(&self) -> bool {
        self.bytes@.len() == 32
    }

    pub fn new(bytes: Vec<u8>) -> (r: U256)
        requires
            bytes@.len() == 32,
        ensures
            r.wf(),
            r.bytes@ == bytes@,
    {
        U256 { bytes }
    }
}

/// The block position a read refers to.
#[derive(Debug, Clone, PartialEq, Eq)]
pub enum BlockNumber {
    Latest,
    Earliest,
    Pending,
    Number(u64),
}

/// A block named either by hash or by position.
#[derive(Debug, Clone, PartialEq, Eq)]
pub enum BlockId {
    Hash(H256),
    Number(BlockNumber),
}

/// A transaction named by hash, or by block and index within it.
#[derive(Debug, Clone, PartialEq, Eq)]
pub enum TransactionId {
    Hash(H256),
    Block(BlockId, u64),
}

/// A read-only contract call, mirroring the node's call object.
#[derive(Debug, Clone, PartialEq, Eq)]
pub struct CallRequest {
    pub from: Option<Address>,
    pub to: Option<Address>,
    pub gas: Option<U256>,
    pub gas_price: Option<U256>,
    pub value: Option<U256>,
    pub data: Option<Vec<u8>>,
}

/// A state-changing transaction submitted for the node to sign and send.
#[derive(Debug, Clone, PartialEq, Eq)]
pub struct TransactionRequest {
    pub from: Address,
    pub to: Option<Address>,
    pub gas: Option<U256>,
    pub gas_price: Option<U256>,
    pub value: Option<U256>,
    pub nonce: Option<U256>,
    pub data: Option<Vec<u8>>,
}

/// Criteria for a log filter: a block range, emitting addresses, and up to
/// four positional topics, each either fixed or left open.
#[derive(Debug, Clone, PartialEq, Eq)]
pub struct LogFilter {
    pub from_block: Option<BlockNumber>,
    pub to_block: Option<BlockNumber>,
    pub address: Vec<Address>,
    pub topics: Vec<Option<H256>>,
}

/// One log record reported by the node.
#[derive(Debug, Clone, PartialEq, Eq)]
pub struct Log {
    pub address: Address,
    pub topics: Vec<H256>,
    pub data: Vec<u8>,
    pub block_number: Option<u64>,
}

/// The node's record of a mined transaction's outcome. `block_number` is
/// absent while the transaction is still pending.
#[derive(Debug, Clone, PartialEq, Eq)]
pub struct TransactionReceipt {
    pub transaction_hash: H256,
    pub block_number: Option<u64>,
    pub status: Option<u64>,
}

/// The node's synchronisation status.
#[derive(Debug, Clone, PartialEq, Eq)]
pub enum SyncState {
    NotSyncing,
    Syncing { starting_block: u64, current_block: u64, highest_block: u64 },
}

} // verus!
