use near_sdk_sim::account::AccountId;
use near_sdk_sim::context::{accounts, VMContext, VMContextBuilder, ViewConfig};

fn id(name: &str) -> AccountId {
    AccountId::new_unchecked(name.to_string())
}

fn default_context() -> VMContext {
    VMContext {
        current_account_id: id("alice.near"),
        signer_account_id: id("bob.near"),
        signer_account_pk: vec![0u8; 32],
        predecessor_account_id: id("bob.near"),
        input: vec![],
        block_index: 0,
        block_timestamp: 0,
        epoch_height: 0,
        account_balance: 10u128.pow(26),
        account_locked_balance: 0,
        storage_usage: 1024 * 300,
        attached_deposit: 0,
        prepaid_gas: 300 * 10u64.pow(12),
        random_seed: vec![0u8; 32],
        view_config: None,
        output_data_receivers: vec![],
    }
}

#[test]
fn accounts_have_fixed_names() {
    let names = ["alice", "bob", "charlie", "danny", "eugene", "fargo"];
    for (i, name) in names.iter().enumerate() {
        assert_eq!(accounts(i), id(name));
        assert!(accounts(i).is_valid());
    }
}

#[test]
fn new_builder_holds_the_default_context() {
    assert_eq!(VMContextBuilder::new().build(), default_context());
    assert_eq!(VMContextBuilder::new().context, default_context());
}

#[test]
fn each_setter_sets_its_field_and_no_other() {
    let mut builder = VMContextBuilder::new();
    builder.current_account_id(accounts(2));
    assert_eq!(builder.build(), VMContext { current_account_id: id("charlie"), ..default_context() });

    let mut builder = VMContextBuilder::new();
    builder.signer_account_id(accounts(3));
    assert_eq!(builder.build(), VMContext { signer_account_id: id("danny"), ..default_context() });

    let mut builder = VMContextBuilder::new();
    builder.signer_account_pk(vec![1, 2, 3]);
    assert_eq!(builder.build(), VMContext { signer_account_pk: vec![1, 2, 3], ..default_context() });

    let mut builder = VMContextBuilder::new();
    builder.predecessor_account_id(accounts(4));
    assert_eq!(builder.build(), VMContext { predecessor_account_id: id("eugene"), ..default_context() });

    let mut builder = VMContextBuilder::new();
    builder.block_index(17);
    assert_eq!(builder.build(), VMContext { block_index: 17, ..default_context() });

    let mut builder = VMContextBuilder::new();
    builder.block_timestamp(18);
    assert_eq!(builder.build(), VMContext { block_timestamp: 18, ..default_context() });

    let mut builder = VMContextBuilder::new();
    builder.epoch_height(19);
    assert_eq!(builder.build(), VMContext { epoch_height: 19, ..default_context() });

    let mut builder = VMContextBuilder::new();
    builder.account_balance(20);
    assert_eq!(builder.build(), VMContext { account_balance: 20, ..default_context() });

    let mut builder = VMContextBuilder::new();
    builder.account_locked_balance(21);
    assert_eq!(builder.build(), VMContext { account_locked_balance: 21, ..default_context() });

    let mut builder = VMContextBuilder::new();
    builder.storage_usage(22);
    assert_eq!(builder.build(), VMContext { storage_usage: 22, ..default_context() });

    let mut builder = VMContextBuilder::new();
    builder.attached_deposit(23);
    assert_eq!(builder.build(), VMContext { attached_deposit: 23, ..default_context() });

    let mut builder = VMContextBuilder::new();
    builder.prepaid_gas(24);
    assert_eq!(builder.build(), VMContext { prepaid_gas: 24, ..default_context() });

    let mut builder = VMContextBuilder::new();
    builder.random_seed(vec![9; 4]);
    assert_eq!(builder.build(), VMContext { random_seed: vec![9; 4], ..default_context() });
}

#[test]
fn view_calls_get_the_view_gas_limit() {
    let mut builder = VMContextBuilder::new();
    builder.is_view(true);
    assert_eq!(
        builder.build(),
        VMContext {
            view_config: Some(ViewConfig { max_gas_burnt: 200_000_000_000_000 }),
            ..default_context()
        }
    );
    builder.is_view(false);
    assert_eq!(builder.build(), default_context());
}

#[test]
fn setters_chain() {
    let context = VMContextBuilder::new()
        .current_account_id(accounts(0))
        .signer_account_id(accounts(1))
        .predecessor_account_id(accounts(5))
        .attached_deposit(7)
        .block_index(3)
        .is_view(true)
        .build();
    assert_eq!(
        context,
        VMContext {
            current_account_id: id("alice"),
            signer_account_id: id("bob"),
            predecessor_account_id: id("fargo"),
            attached_deposit: 7,
            block_index: 3,
            view_config: Some(ViewConfig { max_gas_burnt: 200_000_000_000_000 }),
            ..default_context()
        }
    );
}

#[test]
fn built_context_is_a_copy() {
    let mut builder = VMContextBuilder::new();
    let first = builder.build();
    builder.block_index(5);
    assert_eq!(first.block_index, 0);
    assert_eq!(builder.build().block_index, 5);
    let copy = builder.clone();
    builder.block_index(6);
    assert_eq!(copy.build().block_index, 5);
}
