use hmy_web3::contract::{build_call_request, build_transaction_request, Options};
use hmy_web3::namespace::{HmyNamespace, Web3};
use hmy_web3::types::{Address, U256};

fn addr(byte: u8) -> Address {
    Address::new(vec![byte; 20])
}

fn qty(byte: u8) -> U256 {
    U256::new(vec![byte; 32])
}

#[test]
fn a_transaction_request_carries_the_options_unchanged() {
    let options = Options {
        gas: Some(qty(1)),
        gas_price: None,
        value: Some(qty(2)),
        nonce: Some(qty(3)),
    };
    let tx = build_transaction_request(addr(1), addr(2), vec![0xab, 0xcd], options);
    assert_eq!(tx.from, addr(1));
    assert_eq!(tx.to, Some(addr(2)));
    assert_eq!(tx.gas, Some(qty(1)));
    assert_eq!(tx.gas_price, None);
    assert_eq!(tx.value, Some(qty(2)));
    assert_eq!(tx.nonce, Some(qty(3)));
    assert_eq!(tx.data, Some(vec![0xab, 0xcd]));
}

#[test]
fn a_call_request_carries_the_options_unchanged() {
    let options = Options { gas: None, gas_price: Some(qty(4)), value: None, nonce: None };
    let call = build_call_request(Some(addr(3)), addr(4), vec![0x01], options);
    assert_eq!(call.from, Some(addr(3)));
    assert_eq!(call.to, Some(addr(4)));
    assert_eq!(call.gas, None);
    assert_eq!(call.gas_price, Some(qty(4)));
    assert_eq!(call.value, None);
    assert_eq!(call.data, Some(vec![0x01]));
}

#[test]
fn default_options_leave_everything_to_the_node() {
    let options = Options::default();
    assert_eq!(options.gas, None);
    assert_eq!(options.gas_price, None);
    assert_eq!(options.value, None);
    assert_eq!(options.nonce, None);
}

#[test]
fn the_client_root_hands_out_both_namespaces() {
    let web3 = Web3::new();
    assert_eq!(web3.hmy().block_number().method, "hmy_blockNumber");
    assert_eq!(web3.hmy_filter().create_blocks_filter().method, "hmy_newBlockFilter");
}
