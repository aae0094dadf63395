use hmy_web3::hmy::Hmy;
use hmy_web3::rpc::Param;
use hmy_web3::types::{
    Address, BlockId, BlockNumber, CallRequest, LogFilter, TransactionId, TransactionRequest, H256,
    U256,
};

fn addr(byte: u8) -> Address {
    Address::new(vec![byte; 20])
}

fn hash(byte: u8) -> H256 {
    H256::new(vec![byte; 32])
}

fn qty(byte: u8) -> U256 {
    U256::new(vec![byte; 32])
}

fn call_req() -> CallRequest {
    CallRequest { from: None, to: Some(addr(9)), gas: None, gas_price: None, value: None, data: None }
}

#[test]
fn simple_reads_have_no_parameters() {
    let hmy = Hmy::new();
    assert_eq!(hmy.block_number().method, "hmy_blockNumber");
    assert!(hmy.block_number().params.is_empty());
    assert_eq!(hmy.block_number_v2().method, "hmyv2_blockNumber");
    assert_eq!(hmy.gas_price().method, "hmy_gasPrice");
    assert_eq!(hmy.gas_price_v2().method, "hmyv2_gasPrice");
    assert_eq!(hmy.syncing().method, "hmy_syncing");
    assert!(hmy.syncing().params.is_empty());
}

#[test]
fn call_defaults_to_the_latest_block() {
    let hmy = Hmy::new();
    let c = hmy.call(call_req(), None);
    assert_eq!(c.method, "hmy_call");
    assert_eq!(
        c.params,
        vec![
            Param::Call(call_req()),
            Param::BlockRef(BlockId::Number(BlockNumber::Latest)),
        ]
    );
    let c = hmy.call(call_req(), Some(BlockId::Number(BlockNumber::Number(5))));
    assert_eq!(c.params[1], Param::BlockRef(BlockId::Number(BlockNumber::Number(5))));
}

#[test]
fn estimate_gas_sends_the_block_only_when_named() {
    let hmy = Hmy::new();
    let c = hmy.estimate_gas(call_req(), None);
    assert_eq!(c.method, "hmy_estimateGas");
    assert_eq!(c.params, vec![Param::Call(call_req())]);
    let c = hmy.estimate_gas(call_req(), Some(BlockNumber::Pending));
    assert_eq!(c.params, vec![Param::Call(call_req()), Param::Block(BlockNumber::Pending)]);
}

#[test]
fn balance_and_nonce_carry_address_then_block() {
    let hmy = Hmy::new();
    for (c, m) in [
        (hmy.balance(addr(1), None), "hmy_getBalance"),
        (hmy.balance_v2(addr(1), None), "hmyv2_getBalance"),
        (hmy.transaction_count(addr(1), None), "hmy_getTransactionCount"),
        (hmy.transaction_count_v2(addr(1), None), "hmyv2_getTransactionCount"),
        (hmy.code(addr(1), None), "hmy_getCode"),
    ] {
        assert_eq!(c.method, m);
        assert_eq!(
            c.params,
            vec![Param::Address(addr(1)), Param::Block(BlockNumber::Latest)]
        );
    }
    let c = hmy.balance(addr(1), Some(BlockNumber::Number(7)));
    assert_eq!(c.params[1], Param::Block(BlockNumber::Number(7)));
}

#[test]
fn storage_carries_address_index_and_block() {
    let hmy = Hmy::new();
    let c = hmy.storage(addr(2), qty(0), Some(BlockNumber::Earliest));
    assert_eq!(c.method, "hmy_getStorageAt");
    assert_eq!(
        c.params,
        vec![
            Param::Address(addr(2)),
            Param::Quantity(qty(0)),
            Param::Block(BlockNumber::Earliest),
        ]
    );
}

#[test]
fn block_lookups_pick_the_method_from_the_id() {
    let hmy = Hmy::new();
    let by_hash = hmy.block(BlockId::Hash(hash(3)));
    assert_eq!(by_hash.method, "hmy_getBlockByHash");
    assert_eq!(by_hash.params, vec![Param::Hash(hash(3)), Param::Bool(false)]);

    let by_number = hmy.block(BlockId::Number(BlockNumber::Number(12)));
    assert_eq!(by_number.method, "hmy_getBlockByNumber");
    assert_eq!(
        by_number.params,
        vec![Param::Block(BlockNumber::Number(12)), Param::Bool(false)]
    );

    let with_txs = hmy.block_with_txs(BlockId::Hash(hash(3)));
    assert_eq!(with_txs.method, "hmy_getBlockByHash");
    assert_eq!(with_txs.params, vec![Param::Hash(hash(3)), Param::Bool(true)]);

    let v2 = hmy.block_v2(BlockId::Number(BlockNumber::Latest));
    assert_eq!(v2.method, "hmyv2_getBlockByNumber");
    let v2 = hmy.block_with_txs_v2(BlockId::Hash(hash(3)));
    assert_eq!(v2.method, "hmyv2_getBlockByHash");
    assert_eq!(v2.params[1], Param::Bool(true));
}

#[test]
fn transaction_counts_pick_the_method_from_the_id() {
    let hmy = Hmy::new();
    let c = hmy.block_transaction_count(BlockId::Hash(hash(4)));
    assert_eq!(c.method, "hmy_getBlockTransactionCountByHash");
    assert_eq!(c.params, vec![Param::Hash(hash(4))]);
    let c = hmy.block_transaction_count_v2(BlockId::Number(BlockNumber::Pending));
    assert_eq!(c.method, "hmyv2_getBlockTransactionCountByNumber");
    assert_eq!(c.params, vec![Param::Block(BlockNumber::Pending)]);
}

#[test]
fn transaction_lookups_cover_all_three_id_forms() {
    let hmy = Hmy::new();
    let c = hmy.transaction(TransactionId::Hash(hash(5)));
    assert_eq!(c.method, "hmy_getTransactionByHash");
    assert_eq!(c.params, vec![Param::Hash(hash(5))]);

    let c = hmy.transaction(TransactionId::Block(BlockId::Hash(hash(5)), 2));
    assert_eq!(c.method, "hmy_getTransactionByBlockHashAndIndex");
    assert_eq!(c.params, vec![Param::Hash(hash(5)), Param::Index(2)]);

    let c = hmy.transaction_v2(TransactionId::Block(
        BlockId::Number(BlockNumber::Number(8)),
        0,
    ));
    assert_eq!(c.method, "hmyv2_getTransactionByBlockNumberAndIndex");
    assert_eq!(
        c.params,
        vec![Param::Block(BlockNumber::Number(8)), Param::Index(0)]
    );
}

#[test]
fn receipts_and_submissions_use_their_wire_names() {
    let hmy = Hmy::new();
    let c = hmy.transaction_receipt(hash(6));
    assert_eq!(c.method, "hmy_getTransactionReceipt");
    assert_eq!(c.params, vec![Param::Hash(hash(6))]);
    let c = hmy.transaction_receipt_v2(hash(6));
    assert_eq!(c.method, "hmyv2_getTransactionReceipt");

    assert_eq!(hmy.new_block_filter().method, "hmy_newBlockFilter");
    assert_eq!(
        hmy.new_pending_transaction_filter().method,
        "hmy_newPendingTransactionFilter"
    );

    let tx = TransactionRequest {
        from: addr(7),
        to: Some(addr(8)),
        gas: None,
        gas_price: None,
        value: None,
        nonce: None,
        data: None,
    };
    let c = hmy.send_transaction(tx.clone());
    assert_eq!(c.method, "eth_sendTransaction");
    assert_eq!(c.params, vec![Param::Transaction(tx)]);

    let c = hmy.send_raw_transaction(vec![0xde, 0xad]);
    assert_eq!(c.method, "hmy_sendRawTransaction");
    assert_eq!(c.params, vec![Param::Data(vec![0xde, 0xad])]);
}

#[test]
fn logs_wrap_the_filter_criteria() {
    let hmy = Hmy::new();
    let criteria = LogFilter {
        from_block: Some(BlockNumber::Number(1)),
        to_block: None,
        address: vec![addr(1)],
        topics: vec![Some(hash(2)), None],
    };
    let c = hmy.logs(criteria.clone());
    assert_eq!(c.method, "hmy_getLogs");
    assert_eq!(c.params, vec![Param::Logs(criteria)]);
}
