//! The context that a contract call runs in, and a builder for it.

use vstd::prelude::*;
use crate::account::{
    valid_account_id, AccountId, Balance, BlockHeight, EpochHeight, Gas, StorageUsage,
};

verus! {

/// The gas that a view call may burn.
pub const VIEW_MAX_GAS_BURNT: Gas = 200_000_000_000_000;

/// How a call runs when it only reads.
#[derive(Clone, Copy, Debug, PartialEq, Eq)]
pub struct ViewConfig {
    /// The most gas that the call may burn.
    pub max_gas_burnt: Gas,
}

/// What a contract sees of the chain and of the call that it runs in.
#[derive(Debug, PartialEq, Eq)]
pub struct VMContext {
    /// The account that owns the contract.
    pub current_account_id: AccountId,
    /// The account that signed the transaction.
    pub signer_account_id: AccountId,
    /// The public key with which the transaction was signed.
    pub signer_account_pk: Vec<u8>,
    /// The account that made the call.
    pub predecessor_account_id: AccountId,
    /// The arguments of the call.
    pub input: Vec<u8>,
    pub block_index: BlockHeight,
    pub block_timestamp: u64,
    pub epoch_height: EpochHeight,
    pub account_balance: Balance,
    pub account_locked_balance: Balance,
    pub storage_usage: StorageUsage,
    pub attached_deposit: Balance,
    pub prepaid_gas: Gas,
    pub random_seed: Vec<u8>,
    /// Set where the call only reads.
    pub view_config: Option<ViewConfig>,
    /// The accounts that wait for what the call returns.
    pub output_data_receivers: Vec<AccountId>,
}

/// What a `VMContext` is in contracts.
pub struct VMContextView {
    pub current_account_id: Seq<char>,
    pub signer_account_id: Seq<char>,
    pub signer_account_pk: Seq<u8>,
    pub predecessor_account_id: Seq<char>,
    pub input: Seq<u8>,
    pub block_index: BlockHeight,
    pub block_timestamp: u64,
    pub epoch_height: EpochHeight,
    pub account_balance: Balance,
    pub account_locked_balance: Balance,
    pub storage_usage: StorageUsage,
    pub attached_deposit: Balance,
    pub prepaid_gas: Gas,
    pub random_seed: Seq<u8>,
    pub view_config: Option<ViewConfig>,
    pub output_data_receivers: Seq<Seq<char>>,
}

impl View for VMContext {
    type V = VMContextView;

    open spec fn view(&self) -> VMContextView {
        VMContextView {
            current_account_id: self.current_account_id@,
            signer_account_id: self.signer_account_id@,
            signer_account_pk: self.signer_account_pk@,
            predecessor_account_id: self.predecessor_account_id@,
            input: self.input@,
            block_index: self.block_index,
            block_timestamp: self.block_timestamp,
            epoch_height: self.epoch_height,
            account_balance: self.account_balance,
            account_locked_balance: self.account_locked_balance,
            storage_usage: self.storage_usage,
            attached_deposit: self.attached_deposit,
            prepaid_gas: self.prepaid_gas,
            random_seed: self.random_seed@,
            view_config: self.view_config,
            output_data_receivers: self.output_data_receivers.deep_view(),
        }
    }
}

impl Clone for VMContext {
    fn clone(&self) -> (r: Self)
        ensures
            r@ == self@,
    {
        let output_data_receivers = self.output_data_receivers.clone();
        assert(output_data_receivers.deep_view() =~= self.output_data_receivers.deep_view());
        VMContext {
            current_account_id: self.current_account_id.clone(),
            signer_account_id: self.signer_account_id.clone(),
            signer_account_pk: self.signer_account_pk.clone(),
            predecessor_account_id: self.predecessor_account_id.clone(),
            input: self.input.clone(),
            block_index: self.block_index,
            block_timestamp: self.block_timestamp,
            epoch_height: self.epoch_height,
            account_balance: self.account_balance,
            account_locked_balance: self.account_locked_balance,
            storage_usage: self.storage_usage,
            attached_deposit: self.attached_deposit,
            prepaid_gas: self.prepaid_gas,
            random_seed: self.random_seed.clone(),
            view_config: self.view_config,
            output_data_receivers,
        }
    }
}

/// The names of the accounts that `accounts` hands out.
pub open spec fn account_name(id: int) -> Seq<char> {
    if id == 0 {
        "alice"@
    } else if id == 1 {
        "bob"@
    } else if id == 2 {
        "charlie"@
    } else if id == 3 {
        "danny"@
    } else if id == 4 {
        "eugene"@
    } else {
        "fargo"@
    }
}

/// One of six accounts with fixed names, by its number.
pub fn accounts(id: usize) -> (r: AccountId)
    requires
        id < 6,
    ensures
        r@ == account_name(id as int),
{
    let name = if id == 0 {
        "alice"
    } else if id == 1 {
        "bob"
    } else if id == 2 {
        "charlie"
    } else if id == 3 {
        "danny"
    } else if id == 4 {
        "eugene"
    } else {
        "fargo"
    };
    AccountId::new_unchecked(name.to_owned())
}

/// The context that a new builder starts with: the contract of
/// `alice.near` called and signed by `bob.near`, at block 0, with nothing
/// attached.
pub open spec fn default_context() -> VMContextView {
    VMContextView {
        current_account_id: "alice.near"@,
        signer_account_id: "bob.near"@,
        signer_account_pk: Seq::new(32, |i: int| 0u8),
        predecessor_account_id: "bob.near"@,
        input: Seq::empty(),
        block_index: 0,
        block_timestamp: 0,
        epoch_height: 0,
        account_balance: 100_000_000_000_000_000_000_000_000,
        account_locked_balance: 0,
        storage_usage: 307_200,
        attached_deposit: 0,
        prepaid_gas: 300_000_000_000_000,
        random_seed: Seq::new(32, |i: int| 0u8),
        view_config: None,
        output_data_receivers: Seq::empty(),
    }
}

/// Thirty-two zero bytes.
fn zero_bytes() -> (r: Vec<u8>)
    ensures
        r@ == Seq::new(32, |i: int| 0u8),
{
    let mut r: Vec<u8> = Vec::new();
    let mut i: usize = 0;
    while i < 32
        invariant
            i <= 32,
            r@.len() == i,
            forall|j: int| 0 <= j < i ==> r@[j] == 0u8,
        decreases 32 - i,
    {
        r.push(0u8);
        i = i + 1;
    }
    assert(r@ =~= Seq::new(32, |i: int| 0u8));
    r
}

/// Builds the context of a call field by field.
pub struct VMContextBuilder {
    pub context: VMContext,
}

impl Clone for VMContextBuilder {
    fn clone(&self) -> (r: Self)
        ensures
            r.context@ == self.context@,
    {
        VMContextBuilder { context: self.context.clone() }
    }
}

impl VMContextBuilder {
    /// A builder that holds the default context.
    pub fn new() -> (r: Self)
        ensures
            r.context@ == default_context(),
    {
        let r = VMContextBuilder {
            context: VMContext {
                current_account_id: AccountId::new_unchecked("alice.near".to_owned()),
                signer_account_id: AccountId::new_unchecked("bob.near".to_owned()),
                signer_account_pk: zero_bytes(),
                predecessor_account_id: AccountId::new_unchecked("bob.near".to_owned()),
                input: Vec::new(),
                block_index: 0,
                block_timestamp: 0,
                epoch_height: 0,
                account_balance: 100_000_000_000_000_000_000_000_000,
                account_locked_balance: 0,
                storage_usage: 1024 * 300,
                attached_deposit: 0,
                prepaid_gas: 300 * 1_000_000_000_000,
                random_seed: zero_bytes(),
                view_config: None,
                output_data_receivers: Vec::new(),
            },
        };
        assert(r.context.output_data_receivers.deep_view() =~= Seq::<Seq<char>>::empty());
        r
    }

    pub fn current_account_id(&mut self, account_id: AccountId) -> (ret: &mut Self)
        requires
            valid_account_id(account_id@),
        ensures
            *ret == (VMContextBuilder {
                context: VMContext { current_account_id: account_id, ..old(self).context },
            }),
            *final(self) == *final(ret),
    {
        self.context.current_account_id = account_id;
        self
    }

    pub fn signer_account_id(&mut self, account_id: AccountId) -> (ret: &mut Self)
        requires
            valid_account_id(account_id@),
        ensures
            *ret == (VMContextBuilder {
                context: VMContext { signer_account_id: account_id, ..old(self).context },
            }),
            *final(self) == *final(ret),
    {
        self.context.signer_account_id = account_id;
        self
    }

    pub fn signer_account_pk(&mut self, pk: Vec<u8>) -> (ret: &mut Self)
        ensures
            *ret == (VMContextBuilder { context: VMContext { signer_account_pk: pk, ..old(self).context } }),
            *final(self) == *final(ret),
    {
        self.context.signer_account_pk = pk;
        self
    }

    pub fn predecessor_account_id(&mut self, account_id: AccountId) -> (ret: &mut Self)
        requires
            valid_account_id(account_id@),
        ensures
            *ret == (VMContextBuilder {
                context: VMContext { predecessor_account_id: account_id, ..old(self).context },
            }),
            *final(self) == *final(ret),
    {
        self.context.predecessor_account_id = account_id;
        self
    }

    pub fn block_index(&mut self, block_index: BlockHeight) -> (ret: &mut Self)
        ensures
            *ret == (VMContextBuilder { context: VMContext { block_index, ..old(self).context } }),
            *final(self) == *final(ret),
    {
        self.context.block_index = block_index;
        self
    }

    pub fn block_timestamp(&mut self, block_timestamp: u64) -> (ret: &mut Self)
        ensures
            *ret == (VMContextBuilder { context: VMContext { block_timestamp, ..old(self).context } }),
            *final(self) == *final(ret),
    {
        self.context.block_timestamp = block_timestamp;
        self
    }

    pub fn epoch_height(&mut self, epoch_height: EpochHeight) -> (ret: &mut Self)
        ensures
            *ret == (VMContextBuilder { context: VMContext { epoch_height, ..old(self).context } }),
            *final(self) == *final(ret),
    {
        self.context.epoch_height = epoch_height;
        self
    }

    pub fn account_balance(&mut self, amount: Balance) -> (ret: &mut Self)
        ensures
            *ret == (VMContextBuilder { context: VMContext { account_balance: amount, ..old(self).context } }),
            *final(self) == *final(ret),
    {
        self.context.account_balance = amount;
        self
    }

    pub fn account_locked_balance(&mut self, amount: Balance) -> (ret: &mut Self)
        ensures
            *ret == (VMContextBuilder {
                context: VMContext { account_locked_balance: amount, ..old(self).context },
            }),
            *final(self) == *final(ret),
    {
        self.context.account_locked_balance = amount;
        self
    }

    pub fn storage_usage(&mut self, usage: StorageUsage) -> (ret: &mut Self)
        ensures
            *ret == (VMContextBuilder { context: VMContext { storage_usage: usage, ..old(self).context } }),
            *final(self) == *final(ret),
    {
        self.context.storage_usage = usage;
        self
    }

    pub fn attached_deposit(&mut self, amount: Balance) -> (ret: &mut Self)
        ensures
            *ret == (VMContextBuilder { context: VMContext { attached_deposit: amount, ..old(self).context } }),
            *final(self) == *final(ret),
    {
        self.context.attached_deposit = amount;
        self
    }

    pub fn prepaid_gas(&mut self, gas: Gas) -> (ret: &mut Self)
        ensures
            *ret == (VMContextBuilder { context: VMContext { prepaid_gas: gas, ..old(self).context } }),
            *final(self) == *final(ret),
    {
        self.context.prepaid_gas = gas;
        self
    }

    pub fn random_seed(&mut self, seed: Vec<u8>) -> (ret: &mut Self)
        ensures
            *ret == (VMContextBuilder { context: VMContext { random_seed: seed, ..old(self).context } }),
            *final(self) == *final(ret),
    {
        self.context.random_seed = seed;
        self
    }

    /// Makes the call a view call, with the gas limit of view calls, or an
    /// ordinary call.
    pub fn is_view(&mut self, is_view: bool) -> (ret: &mut Self)
        ensures
            *ret == (VMContextBuilder {
                context: VMContext {
                    view_config: if is_view {
                        Some(ViewConfig { max_gas_burnt: VIEW_MAX_GAS_BURNT })
                    } else {
                        None
                    },
                    ..old(self).context
                },
            }),
            *final(self) == *final(ret),
    {
        if is_view {
            self.context.view_config = Some(ViewConfig { max_gas_burnt: VIEW_MAX_GAS_BURNT });
        } else {
            self.context.view_config = None;
        }
        self
    }

    /// A copy of the context as it stands.
    pub fn build(&self) -> (r: VMContext)
        ensures
            r@ == self.context@,
    {
        self.context.clone()
    }
}

} // verus!
