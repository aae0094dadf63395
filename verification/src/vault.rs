//! The on-chain record of one custody vault, as read back from the bridge
//! contract.

use std::collections::HashMap;

use vstd::prelude::*;

use crate::types::{Address, U256};

verus! {

/// A vault's balances and the deposit addresses registered against it. A
/// plain data carrier: the contract-side rules that relate these figures are
/// the chain's, not this client's.
pub struct OneBtcVault {
    /// First 32 bytes of the vault's btc public key.
    pub btc_public_key_x: U256,
    /// Last 32 bytes of the vault's btc public key.
    pub btc_public_key_y: U256,
    /// Collateral.
    pub collateral: U256,
    /// Amount of issued onebtc.
    pub issued: U256,
    /// Amount to be issued.
    pub to_be_issued: U256,
    /// Amount to be redeemed.
    pub to_be_redeemed: U256,
    /// Replaced collateral.
    pub replace_collateral: U256,
    /// Amount to be replaced.
    pub to_be_replaced: U256,
    /// Amount of collateral liquidated.
    pub liquidated_collateral: U256,
    /// Addresses that deposited btc.
    pub deposit_addresses: HashMap<Address, bool>,
}

} // verus!
