//! The parameters of a chain and the state it starts with.

use near_crypto::InMemorySigner;
use near_parameters::RuntimeConfig;
use vstd::prelude::*;
use crate::account::{
    valid_account_id, AccessKey, AccessKeyPermissionView, AccessKeyView, Account, AccountId, AccountInfo,
    Balance, Duration, Gas, KeyType, PublicKey, PublicKeyView, StateRecord, StateRecordView,
};
use crate::hash::{zero_hash, CryptoHash};

verus! {

/// Blocks per epoch, unless a genesis says otherwise.
pub const DEFAULT_EPOCH_LENGTH: u64 = 3;

/// Time between two blocks, unless a genesis says otherwise: one second.
pub const DEFAULT_BLOCK_PROD_TIME: Duration = 1_000_000_000;

/// Price of gas, unless a genesis says otherwise.
pub const DEFAULT_GAS_PRICE: Balance = 100_000_000;

/// Height of the first block, unless a genesis says otherwise.
pub const DEFAULT_GENESIS_HEIGHT: u64 = 1;

/// Balance that the root account starts with.
pub const ROOT_BALANCE: Balance = 1_000_000_000_000_000_000_000_000_000_000_000;

/// Nanoseconds in a year of 365 days.
pub const NANOS_PER_YEAR: u64 = 365 * 24 * 3600 * 1_000_000_000;

/// The signer that `near_crypto` keeps in memory. Its fields are not read
/// here: the library hands the signer on to its caller.
#[verifier::external_type_specification]
#[verifier::external_body]
pub struct ExInMemorySigner(near_crypto::InMemorySigner);

/// The configuration of the engine, of `near_parameters`. The library
/// carries it; of its many settings it reads and sets one, the gas ceiling.
#[verifier::external_type_specification]
#[verifier::external_body]
pub struct ExRuntimeConfig(near_parameters::RuntimeConfig);

/// The bytes of the public key that `near_crypto` derives from a seed for
/// a curve.
pub uninterp spec fn public_key_of_seed(key_type: KeyType, seed: Seq<char>) -> Seq<u8>;

/// The public key that a signer holds.
pub uninterp spec fn key_of_signer(signer: InMemorySigner) -> PublicKeyView;

/// The account that a signer signs for.
pub uninterp spec fn account_of_signer(signer: InMemorySigner) -> Seq<char>;

/// The configuration that the engine ships for a protocol version.
pub uninterp spec fn config_at(protocol_version: u32) -> RuntimeConfig;

/// The gas ceiling of a configuration: the most gas that one transaction
/// may bring.
pub uninterp spec fn gas_ceiling_of(config: RuntimeConfig) -> Gas;

/// A configuration with another gas ceiling.
pub uninterp spec fn with_gas_ceiling(config: RuntimeConfig, gas: Gas) -> RuntimeConfig;

/// Calls `near_crypto::InMemorySigner::from_seed`. The contract claims
/// that the signer signs for the account given, and that its key is a
/// function of the curve and the seed alone. An account id that breaks the
/// rule for account ids is left out, since parsing it would fail.
#[verifier::external_body]
fn signer_from_seed(account_id: &str, key_type: KeyType, seed: &str) -> (r: InMemorySigner)
    requires
        valid_account_id(account_id@),
    ensures
        account_of_signer(r) == account_id@,
        key_of_signer(r) == (PublicKeyView { key_type, data: public_key_of_seed(key_type, seed@) }),
{
    let curve = match key_type {
        KeyType::ED25519 => near_crypto::KeyType::ED25519,
        KeyType::SECP256K1 => near_crypto::KeyType::SECP256K1,
    };
    InMemorySigner::from_seed(account_id.parse().unwrap(), curve, seed)
}

/// Calls `near_crypto::Signer::public_key` on the signer and copies the
/// key: its curve and its bytes.
#[verifier::external_body]
fn signer_public_key(signer: &InMemorySigner) -> (r: PublicKey)
    ensures
        r@ == key_of_signer(*signer),
{
    let key = near_crypto::Signer::public_key(signer);
    let key_type = match key {
        near_crypto::PublicKey::ED25519(_) => KeyType::ED25519,
        near_crypto::PublicKey::SECP256K1(_) => KeyType::SECP256K1,
    };
    PublicKey { key_type, data: key.key_data().to_vec() }
}

/// Calls `near_primitives::test_utils::account_new`, which makes an account
/// with the given balance and code hash and nothing locked. The storage that
/// it charges the account for is the engine's business: nothing is claimed
/// of it.
#[verifier::external_body]
fn account_new(amount: Balance, code_hash: CryptoHash) -> (r: Account)
    ensures
        r.amount == amount,
        r.locked == 0,
        r.code_hash == code_hash,
{
    let account = near_primitives::test_utils::account_new(
        amount,
        near_primitives::hash::CryptoHash(code_hash.0),
    );
    Account {
        amount: account.amount(),
        locked: account.locked(),
        code_hash: CryptoHash(account.code_hash().0),
        storage_usage: account.storage_usage(),
    }
}

/// Reads `near_primitives::version::PROTOCOL_VERSION`, the newest protocol
/// version that the engine in use knows.
#[verifier::external_body]
pub(crate) fn protocol_version() -> (r: u32) {
    near_primitives::version::PROTOCOL_VERSION
}

/// Calls `near_parameters::RuntimeConfigStore::new` and `get_config`, and
/// copies the configuration for `protocol_version`. The store is built from
/// files that the crate carries, so the configuration depends on the
/// version alone.
#[verifier::external_body]
fn engine_config(protocol_version: u32) -> (r: RuntimeConfig)
    ensures
        r == config_at(protocol_version),
{
    let store = near_parameters::RuntimeConfigStore::new(None);
    store.get_config(protocol_version).as_ref().clone()
}

/// Reads the gas ceiling of a configuration, its field
/// `wasm_config.limit_config.max_total_prepaid_gas`.
#[verifier::external_body]
fn gas_ceiling(config: &RuntimeConfig) -> (r: Gas)
    ensures
        r == gas_ceiling_of(*config),
{
    config.wasm_config.limit_config.max_total_prepaid_gas
}

/// Sets the gas ceiling of a configuration, its field
/// `wasm_config.limit_config.max_total_prepaid_gas`, and leaves its other
/// settings as they are.
#[verifier::external_body]
fn set_gas_ceiling(config: RuntimeConfig, gas: Gas) -> (r: RuntimeConfig)
    ensures
        r == with_gas_ceiling(config, gas),
        gas_ceiling_of(r) == gas,
{
    let mut config = config;
    config.wasm_config.limit_config.max_total_prepaid_gas = gas;
    config
}

/// The parameters of a chain and the state it starts with.
#[derive(Debug)]
pub struct GenesisConfig {
    /// Time of the first block, in nanoseconds since the epoch.
    pub genesis_time: u64,
    pub gas_price: Balance,
    pub gas_limit: Gas,
    /// Height of the first block.
    pub genesis_height: u64,
    /// Blocks per epoch.
    pub epoch_length: u64,
    /// Time between two blocks, in nanoseconds.
    pub block_prod_time: Duration,
    /// The configuration of the engine.
    pub runtime_config: RuntimeConfig,
    /// Accounts and access keys that exist from the start, in the order in
    /// which they were added.
    pub state_records: Vec<StateRecord>,
    pub validators: Vec<AccountInfo>,
}

/// The chain parameters in the form in which the engine takes them.
#[derive(Debug)]
pub struct ChainConfig {
    /// Time of the first block, in nanoseconds since the epoch.
    pub genesis_time: u64,
    pub gas_limit: Gas,
    pub genesis_height: u64,
    pub epoch_length: u64,
    pub num_blocks_per_year: u64,
    pub num_block_producer_seats: u64,
    pub num_block_producer_seats_per_shard: Vec<u64>,
    pub validators: Vec<AccountInfo>,
}

/// What the engine builds the first state from.
#[derive(Debug)]
pub struct Genesis {
    pub config: ChainConfig,
    pub records: Vec<StateRecord>,
}

impl Default for GenesisConfig {
    fn default() -> (r: Self)
        ensures
            r.genesis_time == 0,
            r.gas_price == DEFAULT_GAS_PRICE,
            r.gas_limit == gas_ceiling_of(r.runtime_config),
            r.genesis_height == DEFAULT_GENESIS_HEIGHT,
            r.epoch_length == DEFAULT_EPOCH_LENGTH,
            r.block_prod_time == DEFAULT_BLOCK_PROD_TIME,
            r.state_records@.len() == 0,
            r.validators@.len() == 0,
    {
        let runtime_config = engine_config(protocol_version());
        GenesisConfig {
            genesis_time: 0,
            gas_price: DEFAULT_GAS_PRICE,
            gas_limit: gas_ceiling(&runtime_config),
            genesis_height: DEFAULT_GENESIS_HEIGHT,
            epoch_length: DEFAULT_EPOCH_LENGTH,
            block_prod_time: DEFAULT_BLOCK_PROD_TIME,
            runtime_config,
            state_records: Vec::new(),
            validators: Vec::new(),
        }
    }
}

/// The record of the root account `account_id` as `init_root_signer` adds it:
/// the root balance, nothing locked, no code.
pub open spec fn is_root_account_record(record: StateRecordView, account_id: Seq<char>) -> bool {
    &&& record matches StateRecordView::Account { account_id: id, account }
    &&& id == account_id
    &&& account.amount == ROOT_BALANCE
    &&& account.locked == 0
    &&& account.code_hash == zero_hash()
}

/// The record of the full-access key that `init_root_signer` adds for
/// `account_id`: the ED25519 key derived from `seed`.
pub open spec fn root_key_record(account_id: Seq<char>, seed: Seq<char>) -> StateRecordView {
    StateRecordView::AccessKey {
        account_id,
        public_key: PublicKeyView {
            key_type: KeyType::ED25519,
            data: public_key_of_seed(KeyType::ED25519, seed),
        },
        access_key: AccessKeyView { nonce: 0, permission: AccessKeyPermissionView::FullAccess },
    }
}

impl GenesisConfig {
    /// Whether the two configurations differ at most in their state records.
    pub open spec fn same_parameters(&self, other: &GenesisConfig) -> bool {
        &&& self.genesis_time == other.genesis_time
        &&& self.gas_price == other.gas_price
        &&& self.gas_limit == other.gas_limit
        &&& self.genesis_height == other.genesis_height
        &&& self.epoch_length == other.epoch_length
        &&& self.block_prod_time == other.block_prod_time
        &&& self.runtime_config == other.runtime_config
        &&& self.validators == other.validators
    }

    /// Makes the signer of the root account `account_id`, with the key
    /// derived from the seed `"test"`, and appends two records: the account,
    /// then its full-access key, which is the signer's key.
    pub fn init_root_signer(&mut self, account_id: &str) -> (signer: InMemorySigner)
        requires
            valid_account_id(account_id@),
        ensures
            account_of_signer(signer) == account_id@,
            key_of_signer(signer) == (PublicKeyView {
                key_type: KeyType::ED25519,
                data: public_key_of_seed(KeyType::ED25519, "test"@),
            }),
            final(self).same_parameters(old(self)),
            final(self).state_records@.len() == old(self).state_records@.len() + 2,
            final(self).state_records@.subrange(0, old(self).state_records@.len() as int)
                == old(self).state_records@,
            is_root_account_record(
                final(self).state_records@[old(self).state_records@.len() as int]@,
                account_id@,
            ),
            final(self).state_records@[old(self).state_records@.len() as int + 1]@ == root_key_record(
                account_id@,
                "test"@,
            ),
    {
        let signer = signer_from_seed(account_id, KeyType::ED25519, "test");
        let public_key = signer_public_key(&signer);
        let root_account = account_new(ROOT_BALANCE, CryptoHash::default());
        self.state_records.push(
            StateRecord::Account { account_id: AccountId(account_id.to_owned()), account: root_account },
        );
        self.state_records.push(
            StateRecord::AccessKey {
                account_id: AccountId(account_id.to_owned()),
                public_key,
                access_key: AccessKey::full_access(),
            },
        );
        assert(final(self).state_records@.subrange(0, old(self).state_records@.len() as int)
            =~= old(self).state_records@);
        signer
    }

    /// The number of blocks in a year when one is made every `block_prod_time`
    /// nanoseconds.
    pub open spec fn blocks_per_year(block_prod_time: Duration) -> int {
        NANOS_PER_YEAR as int / block_prod_time as int
    }

    /// The chain parameters and the state records in the form in which the
    /// engine takes them: one seat for each validator, all on one shard.
    pub fn genesis(&self) -> (r: Genesis)
        requires
            self.block_prod_time > 0,
        ensures
            r.config.genesis_time == self.genesis_time,
            r.config.gas_limit == self.gas_limit,
            r.config.genesis_height == self.genesis_height,
            r.config.epoch_length == self.epoch_length,
            r.config.num_blocks_per_year == Self::blocks_per_year(self.block_prod_time),
            r.config.num_block_producer_seats == self.validators@.len(),
            r.config.num_block_producer_seats_per_shard@ == seq![self.validators@.len() as u64],
            r.config.validators.deep_view() == self.validators.deep_view(),
            r.records.deep_view() == self.state_records.deep_view(),
    {
        let seats = self.validators.len() as u64;
        let mut seats_per_shard: Vec<u64> = Vec::new();
        seats_per_shard.push(seats);
        let validators = self.validators.clone();
        let records = self.state_records.clone();
        assert(validators.deep_view() =~= self.validators.deep_view());
        assert(records.deep_view() =~= self.state_records.deep_view());
        assert(seats_per_shard@ =~= seq![self.validators@.len() as u64]);
        Genesis {
            config: ChainConfig {
                genesis_time: self.genesis_time,
                gas_limit: self.gas_limit,
                genesis_height: self.genesis_height,
                epoch_length: self.epoch_length,
                num_blocks_per_year: NANOS_PER_YEAR / self.block_prod_time,
                num_block_producer_seats: seats,
                num_block_producer_seats_per_shard: seats_per_shard,
                validators,
            },
            records,
        }
    }

    /// The account of each state record, in the order of the records.
    pub fn record_account_ids(&self) -> (r: Vec<AccountId>)
        ensures
            r@.len() == self.state_records@.len(),
            forall|i: int| 0 <= i < r@.len() ==> (#[trigger] r@[i])@ == self.state_records@[i]@.account_id(),
    {
        let mut ids: Vec<AccountId> = Vec::new();
        let mut i: usize = 0;
        while i < self.state_records.len()
            invariant
                i <= self.state_records@.len(),
                ids@.len() == i,
                forall|j: int| 0 <= j < i ==> (#[trigger] ids@[j])@ == self.state_records@[j]@.account_id(),
            decreases self.state_records@.len() - i,
        {
            ids.push(self.state_records[i].account_id());
            i = i + 1;
        }
        ids
    }

    /// The account and the stake of each validator, in the order of the
    /// validators.
    pub fn validator_stakes(&self) -> (r: Vec<(AccountId, Balance)>)
        ensures
            r@.len() == self.validators@.len(),
            forall|i: int| 0 <= i < r@.len() ==> (#[trigger] r@[i]).0@ == self.validators@[i].account_id@
                && r@[i].1 == self.validators@[i].amount,
    {
        let mut stakes: Vec<(AccountId, Balance)> = Vec::new();
        let mut i: usize = 0;
        while i < self.validators.len()
            invariant
                i <= self.validators@.len(),
                stakes@.len() == i,
                forall|j: int| 0 <= j < i ==> (#[trigger] stakes@[j]).0@ == self.validators@[j].account_id@
                    && stakes@[j].1 == self.validators@[j].amount,
            decreases self.validators@.len() - i,
        {
            stakes.push((self.validators[i].account_id.clone(), self.validators[i].amount));
            i = i + 1;
        }
        stakes
    }
}

/// Prepares the genesis of a simulation: takes `genesis_config`, or the
/// default where none is given, sets the gas ceiling of the engine's
/// configuration to the gas limit of the genesis, and adds the root account
/// `root` with its signer. Returns the genesis, the signer and the root
/// account's id.
pub fn init_genesis(genesis_config: Option<GenesisConfig>) -> (r: (GenesisConfig, InMemorySigner, AccountId))
    ensures
        r.2@ == "root"@,
        account_of_signer(r.1) == "root"@,
        key_of_signer(r.1) == (PublicKeyView {
            key_type: KeyType::ED25519,
            data: public_key_of_seed(KeyType::ED25519, "test"@),
        }),
        gas_ceiling_of(r.0.runtime_config) == r.0.gas_limit,
        r.0.state_records@.len() >= 2,
        is_root_account_record(r.0.state_records@[r.0.state_records@.len() - 2]@, "root"@),
        r.0.state_records@[r.0.state_records@.len() - 1]@ == root_key_record("root"@, "test"@),
        match genesis_config {
            Some(given) => {
                &&& r.0.genesis_time == given.genesis_time
                &&& r.0.gas_price == given.gas_price
                &&& r.0.gas_limit == given.gas_limit
                &&& r.0.genesis_height == given.genesis_height
                &&& r.0.epoch_length == given.epoch_length
                &&& r.0.block_prod_time == given.block_prod_time
                &&& r.0.runtime_config == with_gas_ceiling(given.runtime_config, given.gas_limit)
                &&& r.0.validators == given.validators
                &&& r.0.state_records@.subrange(0, given.state_records@.len() as int)
                    == given.state_records@
                &&& r.0.state_records@.len() == given.state_records@.len() + 2
            },
            None => {
                &&& r.0.genesis_time == 0
                &&& r.0.gas_price == DEFAULT_GAS_PRICE
                &&& r.0.genesis_height == DEFAULT_GENESIS_HEIGHT
                &&& r.0.epoch_length == DEFAULT_EPOCH_LENGTH
                &&& r.0.block_prod_time == DEFAULT_BLOCK_PROD_TIME
                &&& r.0.validators@.len() == 0
                &&& r.0.state_records@.len() == 2
            },
        },
{
    let given = match genesis_config {
        Some(given) => given,
        None => GenesisConfig::default(),
    };
    let GenesisConfig {
        genesis_time,
        gas_price,
        gas_limit,
        genesis_height,
        epoch_length,
        block_prod_time,
        runtime_config,
        state_records,
        validators,
    } = given;
    let mut genesis = GenesisConfig {
        genesis_time,
        gas_price,
        gas_limit,
        genesis_height,
        epoch_length,
        block_prod_time,
        runtime_config: set_gas_ceiling(runtime_config, gas_limit),
        state_records,
        validators,
    };
    proof {
        lemma_root_is_valid();
    }
    let signer = genesis.init_root_signer("root");
    (genesis, signer, AccountId::new_unchecked("root".to_owned()))
}

/// The name `root` obeys the rule for account ids.
proof fn lemma_root_is_valid()
    ensures
        valid_account_id("root"@),
{
    reveal_strlit("root");
}

} // verus!
