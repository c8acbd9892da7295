use near_crypto::Signer;
use near_primitives::errors::{InvalidTxError, RuntimeError, TxExecutionError};
use near_primitives::receipt::{DataReceipt, Receipt, ReceiptEnum};
use near_primitives::transaction::SignedTransaction;
use near_sdk_sim::account::AccountId;
use near_sdk_sim::block::Block;
use near_sdk_sim::genesis::{init_genesis, GenesisConfig};
use near_sdk_sim::hash::CryptoHash;
use near_sdk_sim::outcome::{
    ExecutionMetadata, ExecutionOutcome, ExecutionOutcomeWithId, ExecutionStatus, ProfileData,
    ProfileDataV2, ProfileDataV3,
};
use near_sdk_sim::pool::prepare_transactions;
use near_sdk_sim::runtime::{ApplyResult, ApplyState, Resolution, RuntimeStandalone, ViewApplyState};

struct Foo {}

impl Foo {
    fn _private(&self) {
        println!("yay!")
    }
}

#[test]
fn single_test() {
    let foo = Foo {};
    foo._private();
}

fn hash(byte: u8) -> CryptoHash {
    CryptoHash([byte; 32])
}

fn outcome(status: ExecutionStatus, metadata: ExecutionMetadata) -> ExecutionOutcome {
    ExecutionOutcome {
        logs: vec!["log line".to_string()],
        receipt_ids: vec![hash(200)],
        gas_burnt: 11,
        tokens_burnt: 22,
        executor_id: AccountId::new_unchecked("root".to_string()),
        status,
        metadata,
    }
}

fn with_id(id: CryptoHash, status: ExecutionStatus) -> ExecutionOutcomeWithId {
    ExecutionOutcomeWithId { id, outcome: outcome(status, ExecutionMetadata::V1) }
}

fn receipt(id: u8) -> Receipt {
    Receipt {
        predecessor_id: "root".parse().unwrap(),
        receiver_id: "alice".parse().unwrap(),
        receipt_id: near_primitives::hash::CryptoHash([id; 32]),
        receipt: ReceiptEnum::Data(DataReceipt {
            data_id: near_primitives::hash::CryptoHash([id; 32]),
            data: None,
        }),
    }
}

fn result(root: u8, receipts: Vec<Receipt>, outcomes: Vec<ExecutionOutcomeWithId>) -> ApplyResult {
    ApplyResult { state_root: hash(root), outgoing_receipts: receipts, outcomes }
}

fn empty_result(root: u8) -> ApplyResult {
    result(root, vec![], vec![])
}

fn new_runtime() -> RuntimeStandalone {
    RuntimeStandalone::new(GenesisConfig::default(), hash(7))
}

fn create_account_tx(nonce: u64, name: &str, amount: u128) -> SignedTransaction {
    let signer = near_crypto::InMemorySigner::from_seed(
        "root".parse().unwrap(),
        near_crypto::KeyType::ED25519,
        "test",
    );
    SignedTransaction::create_account(
        nonce,
        signer.account_id.clone(),
        name.parse().unwrap(),
        amount,
        signer.public_key(),
        &signer,
        near_primitives::hash::CryptoHash::default(),
    )
}

// The engine's answer to the block is written out here: the engine turns a
// transaction into a receipt, so the outcome of the transaction continues in
// that receipt.
#[test]
fn single_block() {
    let (genesis, signer, _) = init_genesis(None);
    let mut runtime = RuntimeStandalone::new(genesis, hash(7));
    let hash = runtime.send_tx(SignedTransaction::create_account(
        1,
        signer.account_id.clone(),
        "alice".parse().unwrap(),
        100,
        signer.public_key(),
        &signer,
        near_primitives::hash::CryptoHash::default(),
    ));
    runtime
        .produce_block(Ok(result(
            8,
            vec![receipt(50)],
            vec![with_id(hash, ExecutionStatus::SuccessReceiptId(CryptoHash([50; 32])))],
        )))
        .unwrap();
    assert!(matches!(
        runtime.outcome(&hash),
        Some(ExecutionOutcome { status: ExecutionStatus::SuccessReceiptId(_), .. })
    ));
}

#[test]
fn can_produce_many_blocks_without_stack_overflow() {
    let (genesis, _signer, _) = init_genesis(None);
    let mut runtime = RuntimeStandalone::new(genesis, CryptoHash::default());
    runtime.produce_blocks((0..20_000).map(|_| Ok(empty_result(1))).collect()).unwrap();
    assert_eq!(runtime.current_block().block_height, 20_001);
    let held: Block = runtime.current_block().clone();
    drop(runtime);
    assert_eq!(held.block_height, 20_001);
    drop(held);
}

#[test]
fn five_blocks_from_genesis_reach_height_six_epoch_two() {
    let mut runtime = new_runtime();
    assert_eq!(runtime.genesis.genesis_height, 1);
    assert_eq!(runtime.genesis.epoch_length, 3);
    for i in 0..5u8 {
        runtime.produce_block(Ok(empty_result(i))).unwrap();
    }
    assert_eq!(runtime.current_block().block_height, 6);
    assert_eq!(runtime.current_block().epoch_height, 2);
}

#[test]
fn current_block_follows_each_block() {
    let mut runtime = new_runtime();
    runtime.produce_block(Ok(empty_result(1))).unwrap();
    assert_eq!(runtime.current_block().block_height, 2);
    for _ in 0..4 {
        runtime.produce_block(Ok(empty_result(1))).unwrap();
    }
    assert_eq!(runtime.current_block().block_height, 6);
}

#[test]
fn no_blocks_leave_the_genesis_block() {
    let runtime = new_runtime();
    let block = runtime.current_block();
    assert_eq!(block.block_height, 1);
    assert_eq!(block.epoch_height, 0);
    assert_eq!(block.block_timestamp, 0);
    assert_eq!(block.gas_burnt, 0);
    assert_eq!(block.gas_price, 100_000_000);
    assert_eq!(block.gas_limit, runtime.genesis.gas_limit);
    assert_eq!(block.state_root, hash(7));
    assert!(block.prev_block.is_none());
    assert!(runtime.pending_receipts().is_empty());
    assert!(runtime.last_outcomes.is_empty());
}

#[test]
fn genesis_block_has_zero_root_and_epoch_of_its_height() {
    let mut genesis = GenesisConfig::default();
    genesis.genesis_height = 7;
    genesis.genesis_time = 123;
    genesis.gas_price = 5;
    genesis.gas_limit = 9;
    let block = Block::genesis(&genesis);
    assert_eq!(block.state_root, CryptoHash([0; 32]));
    assert_eq!(block.block_height, 7);
    assert_eq!(block.epoch_height, 2);
    assert_eq!(block.block_timestamp, 123);
    assert_eq!(block.gas_price, 5);
    assert_eq!(block.gas_limit, 9);
    assert_eq!(block.gas_burnt, 0);
    assert!(block.prev_block.is_none());
}

#[test]
fn produced_block_keeps_its_predecessor() {
    let mut genesis = GenesisConfig::default();
    genesis.genesis_time = 40;
    let first = Block::genesis(&genesis);
    let second = first.produce(hash(3), 3, 1_000_000_000);
    let third = second.produce(hash(4), 3, 1_000_000_000);
    assert_eq!(third.block_height, 3);
    assert_eq!(third.epoch_height, 1);
    assert_eq!(third.block_timestamp, 2_000_000_040);
    assert_eq!(third.state_root, hash(4));
    assert_eq!(third.gas_burnt, 0);
    assert_eq!(third.gas_price, first.gas_price);
    assert_eq!(third.gas_limit, first.gas_limit);
    let prev = third.prev_block.as_ref().unwrap();
    assert_eq!(prev.block_height, 2);
    assert_eq!(prev.state_root, hash(3));
    let prev_prev = prev.prev_block.as_ref().unwrap();
    assert_eq!(prev_prev.block_height, 1);
    assert!(prev_prev.prev_block.is_none());
}

#[test]
fn epoch_changes_every_epoch_length_blocks() {
    let mut genesis = GenesisConfig::default();
    genesis.epoch_length = 4;
    genesis.genesis_height = 10;
    let mut runtime = RuntimeStandalone::new(genesis, hash(0));
    assert_eq!(runtime.current_block().epoch_height, 2);
    let mut epochs = vec![];
    for _ in 0..6 {
        runtime.produce_block(Ok(empty_result(0))).unwrap();
        epochs.push(runtime.current_block().epoch_height);
    }
    assert_eq!(epochs, vec![2, 3, 3, 3, 3, 4]);
    assert_eq!(runtime.current_block().block_height, 16);
}

#[test]
fn block_takes_state_root_and_receipts_from_the_engine() {
    let mut runtime = new_runtime();
    runtime.produce_block(Ok(result(9, vec![receipt(1), receipt(2)], vec![]))).unwrap();
    assert_eq!(runtime.current_block().state_root, hash(9));
    assert_eq!(runtime.pending_receipts().to_vec(), vec![receipt(1), receipt(2)]);
    assert!(!runtime.all_processed());
    runtime.produce_block(Ok(result(10, vec![receipt(3)], vec![]))).unwrap();
    assert_eq!(runtime.pending_receipts().to_vec(), vec![receipt(3)]);
    runtime.produce_block(Ok(empty_result(11))).unwrap();
    assert!(runtime.pending_receipts().is_empty());
    assert!(runtime.all_processed());
    assert_eq!(runtime.current_block().block_timestamp, 3_000_000_000);
}

#[test]
fn engine_error_is_returned_and_changes_nothing() {
    let mut runtime = new_runtime();
    runtime
        .produce_block(Ok(result(9, vec![receipt(1)], vec![with_id(hash(1), ExecutionStatus::Unknown)])))
        .unwrap();
    let error = RuntimeError::InvalidTxError(InvalidTxError::InvalidNonce { tx_nonce: 1, ak_nonce: 2 });
    let returned = runtime.produce_block(Err(error.clone()));
    assert_eq!(returned, Err(error));
    assert_eq!(runtime.current_block().block_height, 2);
    assert_eq!(runtime.current_block().state_root, hash(9));
    assert_eq!(runtime.pending_receipts().to_vec(), vec![receipt(1)]);
    assert_eq!(runtime.last_outcomes, vec![hash(1)]);
    assert!(runtime.outcome(&hash(1)).is_some());
}

#[test]
fn outcomes_are_indexed_in_the_block_that_returns_them() {
    let mut runtime = new_runtime();
    let profiled = ExecutionOutcomeWithId {
        id: hash(2),
        outcome: outcome(
            ExecutionStatus::SuccessValue(vec![1, 2, 3]),
            ExecutionMetadata::V2(ProfileDataV2 { costs: vec![5, 6] }),
        ),
    };
    runtime
        .produce_block(Ok(result(
            1,
            vec![],
            vec![with_id(hash(1), ExecutionStatus::SuccessReceiptId(hash(2))), profiled],
        )))
        .unwrap();
    assert_eq!(runtime.last_outcomes, vec![hash(1), hash(2)]);
    assert_eq!(
        runtime.outcome(&hash(1)),
        Some(outcome(ExecutionStatus::SuccessReceiptId(hash(2)), ExecutionMetadata::V1))
    );
    assert_eq!(
        runtime.outcome(&hash(2)),
        Some(outcome(
            ExecutionStatus::SuccessValue(vec![1, 2, 3]),
            ExecutionMetadata::V2(ProfileDataV2 { costs: vec![5, 6] })
        ))
    );
    assert_eq!(runtime.outcome(&hash(3)), None);
    assert_eq!(runtime.profile_of_outcome(&hash(1)), None);
    assert_eq!(
        runtime.profile_of_outcome(&hash(2)),
        Some(ProfileData::V2(ProfileDataV2 { costs: vec![5, 6] }))
    );
    runtime.produce_block(Ok(result(2, vec![], vec![with_id(hash(3), ExecutionStatus::Unknown)]))).unwrap();
    assert_eq!(runtime.last_outcomes, vec![hash(1), hash(2), hash(3)]);
    assert!(runtime.outcome(&hash(1)).is_some());
}

#[test]
fn later_outcome_for_an_id_replaces_the_earlier_one() {
    let mut runtime = new_runtime();
    runtime
        .produce_block(Ok(result(
            1,
            vec![],
            vec![
                with_id(hash(1), ExecutionStatus::SuccessReceiptId(hash(2))),
                with_id(hash(1), ExecutionStatus::SuccessValue(vec![9])),
            ],
        )))
        .unwrap();
    assert_eq!(runtime.last_outcomes, vec![hash(1), hash(1)]);
    assert_eq!(runtime.outcome(&hash(1)).unwrap().status, ExecutionStatus::SuccessValue(vec![9]));
}

#[test]
fn send_tx_returns_the_hash_of_the_transaction() {
    let mut runtime = new_runtime();
    let tx = create_account_tx(1, "alice", 100);
    let expected = tx.get_hash();
    let returned = runtime.send_tx(tx.clone());
    assert_eq!(returned, CryptoHash(expected.0));
    assert_ne!(returned, CryptoHash([0; 32]));
    assert_eq!(runtime.transactions.get(&returned.0), Some(&tx));
    let other = runtime.send_tx(create_account_tx(2, "bob", 100));
    assert_ne!(other, returned);
    assert_eq!(runtime.current_block().block_height, 1);
    assert!(runtime.pending_receipts().is_empty());
}

#[test]
fn resolve_tx_forgets_the_last_outcomes() {
    let mut runtime = new_runtime();
    runtime.produce_block(Ok(result(1, vec![], vec![with_id(hash(1), ExecutionStatus::Unknown)]))).unwrap();
    assert_eq!(runtime.last_outcomes, vec![hash(1)]);
    let tx = create_account_tx(1, "alice", 100);
    let expected = tx.get_hash();
    let key = runtime.resolve_tx(tx.clone());
    assert_eq!(key, CryptoHash(expected.0));
    assert!(runtime.last_outcomes.is_empty());
    assert_eq!(runtime.transactions.get(&key.0), Some(&tx));
    assert!(runtime.outcome(&hash(1)).is_some());
    assert_eq!(runtime.current_block().block_height, 2);
}

#[test]
fn resolve_follows_receipts_to_the_value() {
    let mut runtime = new_runtime();
    let key = runtime.resolve_tx(create_account_tx(1, "alice.root", 165437999999999999999000));
    runtime
        .produce_block(Ok(result(
            1,
            vec![receipt(50)],
            vec![with_id(key, ExecutionStatus::SuccessReceiptId(hash(50)))],
        )))
        .unwrap();
    assert_eq!(runtime.resolve_step(&key), Resolution::Pending(hash(50)));
    runtime
        .produce_block(Ok(result(
            2,
            vec![receipt(51)],
            vec![with_id(hash(50), ExecutionStatus::SuccessReceiptId(hash(51)))],
        )))
        .unwrap();
    assert_eq!(runtime.resolve_step(&hash(50)), Resolution::Pending(hash(51)));
    runtime
        .produce_block(Ok(result(3, vec![], vec![with_id(hash(51), ExecutionStatus::SuccessValue(vec![]))])))
        .unwrap();
    assert_eq!(
        runtime.resolve_step(&hash(51)),
        Resolution::Done(hash(51), outcome(ExecutionStatus::SuccessValue(vec![]), ExecutionMetadata::V1))
    );
    assert_eq!(runtime.last_outcomes, vec![key, hash(50), hash(51)]);
    assert_eq!(runtime.current_block().block_height, 4);
}

#[test]
fn resolve_ends_in_a_failure() {
    let mut runtime = new_runtime();
    let failure = ExecutionStatus::Failure(TxExecutionError::InvalidTxError(InvalidTxError::Expired));
    runtime.produce_block(Ok(result(1, vec![receipt(1)], vec![with_id(hash(4), failure)]))).unwrap();
    assert_eq!(
        runtime.resolve_step(&hash(4)),
        Resolution::Done(
            hash(4),
            outcome(
                ExecutionStatus::Failure(TxExecutionError::InvalidTxError(InvalidTxError::Expired)),
                ExecutionMetadata::V1
            )
        )
    );
}

#[test]
fn resolve_waits_while_receipts_are_pending() {
    let mut runtime = new_runtime();
    runtime.produce_block(Ok(result(1, vec![receipt(1)], vec![]))).unwrap();
    assert_eq!(runtime.resolve_step(&hash(4)), Resolution::Pending(hash(4)));
}

#[test]
fn resolve_reports_a_lost_outcome() {
    let mut runtime = new_runtime();
    runtime
        .produce_block(Ok(result(1, vec![], vec![with_id(hash(5), ExecutionStatus::SuccessValue(vec![]))])))
        .unwrap();
    assert_eq!(runtime.resolve_step(&hash(4)), Resolution::LostOutcome(hash(4)));
}

#[test]
fn resolve_reports_an_unknown_status() {
    let mut runtime = new_runtime();
    runtime
        .produce_block(Ok(result(1, vec![receipt(1)], vec![with_id(hash(4), ExecutionStatus::Unknown)])))
        .unwrap();
    assert_eq!(runtime.resolve_step(&hash(4)), Resolution::UnknownStatus(hash(4)));
}

#[test]
fn force_account_update_replaces_only_the_state_root() {
    let mut runtime = new_runtime();
    runtime
        .produce_block(Ok(result(1, vec![receipt(1)], vec![with_id(hash(4), ExecutionStatus::Unknown)])))
        .unwrap();
    runtime.force_account_update(hash(99));
    let block = runtime.current_block();
    assert_eq!(block.state_root, hash(99));
    assert_eq!(block.block_height, 2);
    assert_eq!(block.epoch_height, 0);
    assert_eq!(block.block_timestamp, 1_000_000_000);
    assert_eq!(block.prev_block.as_ref().unwrap().state_root, hash(7));
    assert_eq!(runtime.pending_receipts().to_vec(), vec![receipt(1)]);
    assert_eq!(runtime.last_outcomes, vec![hash(4)]);
    assert!(runtime.outcome(&hash(99)).is_none());
}

#[test]
fn view_state_names_the_current_block_and_the_root_before_it() {
    let mut runtime = new_runtime();
    runtime.produce_block(Ok(empty_result(8))).unwrap();
    runtime.produce_block(Ok(empty_result(9))).unwrap();
    runtime.produce_block(Ok(empty_result(10))).unwrap();
    let expected = ViewApplyState {
        block_height: 4,
        prev_block_hash: hash(9),
        epoch_height: 1,
        block_timestamp: 3_000_000_000,
        current_protocol_version: runtime.protocol_version,
        block_hash: hash(10),
    };
    assert_eq!(runtime.view_state(), expected);
    assert_eq!(runtime.view_state(), expected);
    assert_eq!(runtime.current_block().block_height, 4);
    assert_eq!(runtime.current_block().state_root, hash(10));
}

#[test]
fn view_state_of_the_genesis_block_has_the_zero_hash_before_it() {
    let runtime = new_runtime();
    assert_eq!(
        runtime.view_state(),
        ViewApplyState {
            block_height: 1,
            prev_block_hash: CryptoHash([0; 32]),
            epoch_height: 0,
            block_timestamp: 0,
            current_protocol_version: runtime.protocol_version,
            block_hash: hash(7),
        }
    );
    assert_eq!(runtime.current_block().block_height, 1);
    assert_eq!(runtime.current_block().state_root, hash(7));
}

#[test]
fn engine_error_is_returned_at_the_last_height() {
    let mut genesis = GenesisConfig::default();
    genesis.genesis_height = u64::MAX;
    let mut runtime = RuntimeStandalone::new(genesis, hash(7));
    assert!(!runtime.can_produce_block());
    let returned = runtime.produce_block(Err(RuntimeError::UnexpectedIntegerOverflow));
    assert_eq!(returned, Err(RuntimeError::UnexpectedIntegerOverflow));
    assert_eq!(runtime.current_block().block_height, u64::MAX);
}

#[test]
fn apply_state_names_the_current_block() {
    let mut runtime = new_runtime();
    runtime.produce_block(Ok(empty_result(8))).unwrap();
    runtime.produce_block(Ok(empty_result(9))).unwrap();
    assert_eq!(
        runtime.apply_state(),
        ApplyState {
            block_index: 3,
            epoch_height: 1,
            gas_price: 100_000_000,
            block_timestamp: 2_000_000_000,
            gas_limit: None,
            current_protocol_version: near_primitives::version::PROTOCOL_VERSION,
            is_new_chunk: true,
            state_root: hash(9),
        }
    );
}

#[test]
fn one_transaction_is_taken_from_each_lane() {
    let a1 = create_account_tx(1, "alice", 1);
    let a2 = create_account_tx(2, "alice", 2);
    let b1 = create_account_tx(1, "bob", 3);
    let c1 = create_account_tx(1, "carol", 4);
    let c2 = create_account_tx(2, "carol", 5);
    let c3 = create_account_tx(3, "carol", 6);
    let mut lanes =
        vec![vec![a1.clone(), a2.clone()], vec![], vec![b1.clone()], vec![c1.clone(), c2.clone(), c3.clone()]];
    assert_eq!(prepare_transactions(&mut lanes), vec![a1, b1, c1]);
    assert_eq!(lanes, vec![vec![a2.clone()], vec![], vec![], vec![c2.clone(), c3.clone()]]);
    assert_eq!(prepare_transactions(&mut lanes), vec![a2, c2]);
    assert_eq!(prepare_transactions(&mut lanes), vec![c3]);
    assert_eq!(prepare_transactions(&mut lanes), vec![]);
    assert_eq!(lanes, vec![vec![], vec![], vec![], vec![]]);
    let mut none: Vec<Vec<SignedTransaction>> = vec![];
    assert_eq!(prepare_transactions(&mut none), vec![]);
}

#[test]
fn shared_history_outlives_the_runtime() {
    let mut runtime = new_runtime();
    for i in 0..10u8 {
        runtime.produce_block(Ok(empty_result(i))).unwrap();
    }
    let held = runtime.current_block().prev_block.as_ref().unwrap().clone();
    drop(runtime);
    assert_eq!(held.block_height, 10);
    let mut height = held.block_height;
    let mut block = held.prev_block.clone();
    while let Some(prev) = block {
        height -= 1;
        assert_eq!(prev.block_height, height);
        block = prev.prev_block.clone();
    }
    assert_eq!(height, 1);
}

#[test]
fn newer_profiles_are_indexed_too() {
    let mut runtime = new_runtime();
    let profile = || ProfileDataV3 { actions: vec![1, 2], wasm_ext: vec![3], wasm_gas: 4 };
    let profiled = ExecutionOutcomeWithId {
        id: hash(2),
        outcome: outcome(ExecutionStatus::SuccessValue(vec![]), ExecutionMetadata::V3(profile())),
    };
    runtime.produce_block(Ok(result(1, vec![], vec![profiled]))).unwrap();
    assert_eq!(runtime.profile_of_outcome(&hash(2)), Some(ProfileData::V3(profile())));
    assert_eq!(runtime.outcome(&hash(2)).unwrap().metadata, ExecutionMetadata::V3(profile()));
    assert_eq!(ExecutionMetadata::V1.profile(), None);
}

#[test]
fn produce_blocks_makes_a_block_for_each_answer() {
    let mut runtime = new_runtime();
    runtime.produce_blocks((0..5u8).map(|i| Ok(empty_result(i))).collect()).unwrap();
    assert_eq!(runtime.current_block().block_height, 6);
    assert_eq!(runtime.current_block().epoch_height, 2);
    assert_eq!(runtime.current_block().block_timestamp, 5_000_000_000);
    assert_eq!(runtime.current_block().state_root, hash(4));
    assert_eq!(runtime.current_block().prev_block.as_ref().unwrap().state_root, hash(3));
    runtime.produce_blocks(vec![]).unwrap();
    assert_eq!(runtime.current_block().block_height, 6);
    runtime.produce_blocks(vec![Ok(result(9, vec![receipt(1)], vec![with_id(hash(1), ExecutionStatus::Unknown)]))])
        .unwrap();
    assert_eq!(runtime.current_block().block_height, 7);
    assert_eq!(runtime.pending_receipts().to_vec(), vec![receipt(1)]);
    assert_eq!(runtime.last_outcomes, vec![hash(1)]);
}

#[test]
fn produce_blocks_stops_at_the_first_error() {
    let mut runtime = new_runtime();
    let returned = runtime.produce_blocks(vec![
        Ok(empty_result(1)),
        Ok(result(2, vec![receipt(2)], vec![])),
        Err(RuntimeError::UnexpectedIntegerOverflow),
        Ok(empty_result(3)),
        Err(RuntimeError::InvalidTxError(InvalidTxError::Expired)),
    ]);
    assert_eq!(returned, Err(RuntimeError::UnexpectedIntegerOverflow));
    assert_eq!(runtime.current_block().block_height, 3);
    assert_eq!(runtime.current_block().state_root, hash(2));
    assert_eq!(runtime.pending_receipts().to_vec(), vec![receipt(2)]);
}

#[test]
fn resolve_through_ends_with_the_chain() {
    let mut runtime = new_runtime();
    let key = runtime.resolve_tx(create_account_tx(1, "alice.root", 165437999999999999999000));
    let end = runtime.resolve_through(
        key,
        vec![
            result(1, vec![receipt(50)], vec![with_id(key, ExecutionStatus::SuccessReceiptId(hash(50)))]),
            result(2, vec![receipt(51)], vec![]),
            result(3, vec![receipt(51)], vec![with_id(hash(50), ExecutionStatus::SuccessReceiptId(hash(51)))]),
            result(4, vec![], vec![with_id(hash(51), ExecutionStatus::SuccessValue(vec![7]))]),
            result(5, vec![], vec![with_id(hash(52), ExecutionStatus::Unknown)]),
        ],
    );
    assert_eq!(
        end,
        Resolution::Done(hash(51), outcome(ExecutionStatus::SuccessValue(vec![7]), ExecutionMetadata::V1))
    );
    assert_eq!(runtime.current_block().block_height, 5);
    assert_eq!(runtime.current_block().state_root, hash(4));
    assert_eq!(runtime.last_outcomes, vec![key, hash(50), hash(51)]);
    assert!(runtime.outcome(&hash(52)).is_none());
}

#[test]
fn resolve_through_is_pending_where_the_answers_run_out() {
    let mut runtime = new_runtime();
    let end = runtime.resolve_through(
        hash(1),
        vec![result(1, vec![receipt(50)], vec![with_id(hash(1), ExecutionStatus::SuccessReceiptId(hash(50)))])],
    );
    assert_eq!(end, Resolution::Pending(hash(50)));
    assert_eq!(runtime.current_block().block_height, 2);
    assert_eq!(runtime.resolve_through(hash(50), vec![]), Resolution::Pending(hash(50)));
    assert_eq!(runtime.current_block().block_height, 2);
    assert_eq!(runtime.resolve_through(hash(50), vec![empty_result(2), empty_result(3)]), Resolution::LostOutcome(hash(50)));
    assert_eq!(runtime.current_block().block_height, 3);
}
