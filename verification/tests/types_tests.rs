use std::collections::HashMap;

use hmy_web3::error::Error;
use hmy_web3::types::{Address, SyncState, H256, U256};
use hmy_web3::vault::OneBtcVault;

#[test]
fn fixed_width_values_keep_their_bytes() {
    let a = Address::new((0..20).collect());
    assert_eq!(a.bytes, (0..20).collect::<Vec<u8>>());
    let h = H256::new(vec![7; 32]);
    assert_eq!(h.bytes, vec![7; 32]);
    let q = U256::new(vec![0; 32]);
    assert_eq!(q.bytes.len(), 32);
}

#[test]
fn only_transport_errors_are_transient() {
    assert!(Error::Transport("io".to_string()).is_transient());
    assert!(!Error::Timeout.is_transient());
    assert!(!Error::Decode("x".to_string()).is_transient());
}

#[test]
fn a_vault_record_carries_its_deposit_addresses() {
    let mut deposit_addresses = HashMap::new();
    deposit_addresses.insert(Address::new(vec![1; 20]), true);
    let vault = OneBtcVault {
        btc_public_key_x: U256::new(vec![0; 32]),
        btc_public_key_y: U256::new(vec![0; 32]),
        collateral: U256::new(vec![0; 32]),
        issued: U256::new(vec![0; 32]),
        to_be_issued: U256::new(vec![0; 32]),
        to_be_redeemed: U256::new(vec![0; 32]),
        replace_collateral: U256::new(vec![0; 32]),
        to_be_replaced: U256::new(vec![0; 32]),
        liquidated_collateral: U256::new(vec![0; 32]),
        deposit_addresses,
    };
    assert_eq!(vault.deposit_addresses.get(&Address::new(vec![1; 20])), Some(&true));
    assert_eq!(vault.deposit_addresses.get(&Address::new(vec![2; 20])), None);
}

#[test]
fn sync_states_compare_by_their_fields() {
    assert_eq!(SyncState::NotSyncing, SyncState::NotSyncing);
    let s = SyncState::Syncing { starting_block: 1, current_block: 5, highest_block: 9 };
    assert_ne!(s, SyncState::NotSyncing);
}
