//! Accounts, keys and the records of a chain's first state.

use near_primitives::receipt::Receipt;
use vstd::prelude::*;
use crate::hash::CryptoHash;

verus! {

/// An amount of tokens, in the smallest unit.
pub type Balance = u128;

/// An amount of gas.
pub type Gas = u64;

/// The height of a block.
pub type BlockHeight = u64;

/// The height of an epoch.
pub type EpochHeight = u64;

/// A number of bytes of storage.
pub type StorageUsage = u64;

/// A span of time, in nanoseconds.
pub type Duration = u64;

/// Shortest account id that is valid.
pub const MIN_ACCOUNT_ID_LEN: usize = 2;

/// Longest account id that is valid.
pub const MAX_ACCOUNT_ID_LEN: usize = 64;

/// Whether `c` may stand between two parts of an account id.
pub open spec fn is_separator(c: char) -> bool {
    c == '-' || c == '_' || c == '.'
}

/// Whether `c` is a lower-case letter or a digit.
pub open spec fn is_lowercase_or_digit(c: char) -> bool {
    ('a' <= c && c <= 'z') || ('0' <= c && c <= '9')
}

/// The rule for account ids: between 2 and 64 characters, each a lower-case
/// letter, a digit or a separator, where no separator stands first, last or
/// directly after another separator.
pub open spec fn valid_account_id(s: Seq<char>) -> bool {
    &&& MIN_ACCOUNT_ID_LEN <= s.len() <= MAX_ACCOUNT_ID_LEN
    &&& forall|i: int| 0 <= i < s.len() ==> is_lowercase_or_digit(#[trigger] s[i]) || is_separator(s[i])
    &&& !is_separator(s[0])
    &&& !is_separator(s[s.len() - 1])
    &&& forall|i: int| 0 < i < s.len() ==> !(is_separator(s[i - 1]) && is_separator(#[trigger] s[i]))
}

/// Calls `near_primitives_core::account::id::AccountId::validate`, which
/// accepts a string exactly when it obeys the rule for account ids. The
/// contract states that rule; it is not proved here.
#[verifier::external_body]
fn validate_account_id(id: &str) -> (ok: bool)
    ensures
        ok == valid_account_id(id@),
{
    near_primitives_core::account::id::AccountId::validate(id).is_ok()
}

/// Whether `id` obeys the rule for account ids.
pub fn is_valid_account_id(id: &str) -> (ok: bool)
    ensures
        ok == valid_account_id(id@),
{
    validate_account_id(id)
}

/// The name of an account. It may hold any string: `is_valid` tells whether
/// the chain would accept it.
#[derive(Debug, PartialEq, Eq, Hash)]
pub struct AccountId(pub String);

impl View for AccountId {
    type V = Seq<char>;

    open spec fn view(&self) -> Seq<char> {
        self.0@
    }
}

impl DeepView for AccountId {
    type V = Seq<char>;

    open spec fn deep_view(&self) -> Seq<char> {
        self@
    }
}

impl Clone for AccountId {
    fn clone(&self) -> (r: Self)
        ensures
            r == *self,
    {
        AccountId(self.0.clone())
    }
}

impl AccountId {
    /// Wraps `id` without checking it.
    pub fn new_unchecked(id: String) -> (r: Self)
        ensures
            r == AccountId(id),
    {
        AccountId(id)
    }

    /// The account id of `id`, where `id` obeys the rule for account ids.
    pub fn parse(id: &str) -> (r: Option<Self>)
        ensures
            valid_account_id(id@) ==> (r matches Some(a) && a@ == id@),
            !valid_account_id(id@) ==> r is None,
    {
        if validate_account_id(id) {
            Some(AccountId(id.to_owned()))
        } else {
            None
        }
    }

    /// The id as a string slice.
    pub fn as_str(&self) -> (r: &str)
        ensures
            r@ == self@,
    {
        self.0.as_str()
    }

    /// Whether the id obeys the rule for account ids.
    pub fn is_valid(&self) -> (ok: bool)
        ensures
            ok == valid_account_id(self@),
    {
        validate_account_id(self.0.as_str())
    }
}

/// The curve of a key.
#[derive(Clone, Copy, Debug, PartialEq, Eq, Hash)]
pub enum KeyType {
    ED25519,
    SECP256K1,
}

/// A public key: its curve and its raw bytes.
#[derive(Debug, PartialEq, Eq, Hash)]
pub struct PublicKey {
    pub key_type: KeyType,
    pub data: Vec<u8>,
}

/// What a public key is in contracts.
pub struct PublicKeyView {
    pub key_type: KeyType,
    pub data: Seq<u8>,
}

impl View for PublicKey {
    type V = PublicKeyView;

    open spec fn view(&self) -> PublicKeyView {
        PublicKeyView { key_type: self.key_type, data: self.data@ }
    }
}

impl Clone for PublicKey {
    fn clone(&self) -> (r: Self)
        ensures
            r@ == self@,
    {
        PublicKey { key_type: self.key_type, data: self.data.clone() }
    }
}

/// The state of one account.
#[derive(Clone, Copy, Debug, PartialEq, Eq)]
pub struct Account {
    pub amount: Balance,
    pub locked: Balance,
    pub code_hash: CryptoHash,
    pub storage_usage: StorageUsage,
}

/// What an account is in contracts.
pub struct AccountView {
    pub amount: Balance,
    pub locked: Balance,
    pub code_hash: Seq<u8>,
    pub storage_usage: StorageUsage,
}

impl View for Account {
    type V = AccountView;

    open spec fn view(&self) -> AccountView {
        AccountView {
            amount: self.amount,
            locked: self.locked,
            code_hash: self.code_hash@,
            storage_usage: self.storage_usage,
        }
    }
}

impl Account {
    pub fn new(amount: Balance, locked: Balance, code_hash: CryptoHash, storage_usage: StorageUsage) -> (r: Self)
        ensures
            r == (Account { amount, locked, code_hash, storage_usage }),
    {
        Account { amount, locked, code_hash, storage_usage }
    }
}

/// The permission to call some methods of one contract.
#[derive(Debug, PartialEq, Eq)]
pub struct FunctionCallPermission {
    /// The most that the key may spend on gas and fees; no limit where none
    /// is given.
    pub allowance: Option<Balance>,
    /// The account whose contract the key may call.
    pub receiver_id: String,
    /// The methods that the key may call; any method where the list is
    /// empty.
    pub method_names: Vec<String>,
}

/// What a `FunctionCallPermission` is in contracts.
pub struct FunctionCallPermissionView {
    pub allowance: Option<Balance>,
    pub receiver_id: Seq<char>,
    pub method_names: Seq<Seq<char>>,
}

impl View for FunctionCallPermission {
    type V = FunctionCallPermissionView;

    open spec fn view(&self) -> FunctionCallPermissionView {
        FunctionCallPermissionView {
            allowance: self.allowance,
            receiver_id: self.receiver_id@,
            method_names: self.method_names.deep_view(),
        }
    }
}

impl Clone for FunctionCallPermission {
    fn clone(&self) -> (r: Self)
        ensures
            r@ == self@,
    {
        let method_names = self.method_names.clone();
        assert(method_names.deep_view() =~= self.method_names.deep_view());
        FunctionCallPermission {
            allowance: self.allowance,
            receiver_id: self.receiver_id.clone(),
            method_names,
        }
    }
}

/// What an access key permits.
#[derive(Debug, PartialEq, Eq)]
pub enum AccessKeyPermission {
    /// Calls of some methods of one contract.
    FunctionCall(FunctionCallPermission),
    /// Everything.
    FullAccess,
}

/// What an `AccessKeyPermission` is in contracts.
pub enum AccessKeyPermissionView {
    FunctionCall(FunctionCallPermissionView),
    FullAccess,
}

impl View for AccessKeyPermission {
    type V = AccessKeyPermissionView;

    open spec fn view(&self) -> AccessKeyPermissionView {
        match *self {
            AccessKeyPermission::FunctionCall(permission) => AccessKeyPermissionView::FunctionCall(
                permission@,
            ),
            AccessKeyPermission::FullAccess => AccessKeyPermissionView::FullAccess,
        }
    }
}

/// An access key of an account.
#[derive(Debug, PartialEq, Eq)]
pub struct AccessKey {
    pub nonce: u64,
    pub permission: AccessKeyPermission,
}

/// What an `AccessKey` is in contracts.
pub struct AccessKeyView {
    pub nonce: u64,
    pub permission: AccessKeyPermissionView,
}

impl View for AccessKey {
    type V = AccessKeyView;

    open spec fn view(&self) -> AccessKeyView {
        AccessKeyView { nonce: self.nonce, permission: self.permission@ }
    }
}

impl Clone for AccessKey {
    fn clone(&self) -> (r: Self)
        ensures
            r@ == self@,
    {
        let permission = match &self.permission {
            AccessKeyPermission::FunctionCall(permission) => AccessKeyPermission::FunctionCall(
                permission.clone(),
            ),
            AccessKeyPermission::FullAccess => AccessKeyPermission::FullAccess,
        };
        AccessKey { nonce: self.nonce, permission }
    }
}

impl AccessKey {
    /// A fresh key that permits everything.
    pub fn full_access() -> (r: Self)
        ensures
            r@ == (AccessKeyView { nonce: 0, permission: AccessKeyPermissionView::FullAccess }),
    {
        AccessKey { nonce: 0, permission: AccessKeyPermission::FullAccess }
    }
}

/// A validator: its account, its key and its stake.
#[derive(Debug, PartialEq, Eq)]
pub struct AccountInfo {
    pub account_id: AccountId,
    pub public_key: PublicKey,
    pub amount: Balance,
}

/// What a validator is in contracts.
pub struct AccountInfoView {
    pub account_id: Seq<char>,
    pub public_key: PublicKeyView,
    pub amount: Balance,
}

impl View for AccountInfo {
    type V = AccountInfoView;

    open spec fn view(&self) -> AccountInfoView {
        AccountInfoView {
            account_id: self.account_id@,
            public_key: self.public_key@,
            amount: self.amount,
        }
    }
}

impl DeepView for AccountInfo {
    type V = AccountInfoView;

    open spec fn deep_view(&self) -> AccountInfoView {
        self@
    }
}

impl Clone for AccountInfo {
    fn clone(&self) -> (r: Self)
        ensures
            r@ == self@,
    {
        AccountInfo {
            account_id: self.account_id.clone(),
            public_key: self.public_key.clone(),
            amount: self.amount,
        }
    }
}

/// The account that a receipt is addressed to.
pub uninterp spec fn receiver_of(receipt: Receipt) -> Seq<char>;

/// Calls `Clone::clone` on a `Receipt`: the copy is equal to the receipt.
#[verifier::external_body]
fn clone_receipt(receipt: &Receipt) -> (r: Receipt)
    ensures
        r == *receipt,
{
    receipt.clone()
}

/// Reads the field `receiver_id` of a receipt, the account that the receipt
/// is addressed to.
#[verifier::external_body]
fn receipt_receiver(receipt: &Receipt) -> (r: AccountId)
    ensures
        r@ == receiver_of(*receipt),
{
    AccountId(receipt.receiver_id.to_string())
}

/// One record of the state that a chain starts with.
#[derive(Debug, PartialEq, Eq)]
pub enum StateRecord {
    /// An account and its state.
    Account { account_id: AccountId, account: Account },
    /// One entry of the storage of a contract.
    Data { account_id: AccountId, data_key: Vec<u8>, value: Vec<u8> },
    /// The code of a contract.
    Contract { account_id: AccountId, code: Vec<u8> },
    /// An access key of an account.
    AccessKey { account_id: AccountId, public_key: PublicKey, access_key: AccessKey },
    /// A receipt that waits for data.
    PostponedReceipt(Receipt),
    /// Data that an account received for a receipt.
    ReceivedData { account_id: AccountId, data_id: CryptoHash, data: Option<Vec<u8>> },
    /// A receipt that was put off.
    DelayedReceipt(Receipt),
}

/// What a state record is in contracts.
pub enum StateRecordView {
    Account { account_id: Seq<char>, account: AccountView },
    Data { account_id: Seq<char>, data_key: Seq<u8>, value: Seq<u8> },
    Contract { account_id: Seq<char>, code: Seq<u8> },
    AccessKey { account_id: Seq<char>, public_key: PublicKeyView, access_key: AccessKeyView },
    PostponedReceipt(Receipt),
    ReceivedData { account_id: Seq<char>, data_id: Seq<u8>, data: Option<Seq<u8>> },
    DelayedReceipt(Receipt),
}

impl View for StateRecord {
    type V = StateRecordView;

    open spec fn view(&self) -> StateRecordView {
        match *self {
            StateRecord::Account { account_id, account } => StateRecordView::Account {
                account_id: account_id@,
                account: account@,
            },
            StateRecord::Data { account_id, data_key, value } => StateRecordView::Data {
                account_id: account_id@,
                data_key: data_key@,
                value: value@,
            },
            StateRecord::Contract { account_id, code } => StateRecordView::Contract {
                account_id: account_id@,
                code: code@,
            },
            StateRecord::AccessKey { account_id, public_key, access_key } => StateRecordView::AccessKey {
                account_id: account_id@,
                public_key: public_key@,
                access_key: access_key@,
            },
            StateRecord::PostponedReceipt(receipt) => StateRecordView::PostponedReceipt(receipt),
            StateRecord::ReceivedData { account_id, data_id, data } => StateRecordView::ReceivedData {
                account_id: account_id@,
                data_id: data_id@,
                data: match data {
                    Some(bytes) => Some(bytes@),
                    None => None,
                },
            },
            StateRecord::DelayedReceipt(receipt) => StateRecordView::DelayedReceipt(receipt),
        }
    }
}

impl DeepView for StateRecord {
    type V = StateRecordView;

    open spec fn deep_view(&self) -> StateRecordView {
        self@
    }
}

impl Clone for StateRecord {
    fn clone(&self) -> (r: Self)
        ensures
            r@ == self@,
    {
        match self {
            StateRecord::Account { account_id, account } => StateRecord::Account {
                account_id: account_id.clone(),
                account: *account,
            },
            StateRecord::Data { account_id, data_key, value } => StateRecord::Data {
                account_id: account_id.clone(),
                data_key: data_key.clone(),
                value: value.clone(),
            },
            StateRecord::Contract { account_id, code } => StateRecord::Contract {
                account_id: account_id.clone(),
                code: code.clone(),
            },
            StateRecord::AccessKey { account_id, public_key, access_key } => StateRecord::AccessKey {
                account_id: account_id.clone(),
                public_key: public_key.clone(),
                access_key: access_key.clone(),
            },
            StateRecord::PostponedReceipt(receipt) => StateRecord::PostponedReceipt(clone_receipt(receipt)),
            StateRecord::ReceivedData { account_id, data_id, data } => StateRecord::ReceivedData {
                account_id: account_id.clone(),
                data_id: *data_id,
                data: match data {
                    Some(bytes) => Some(bytes.clone()),
                    None => None,
                },
            },
            StateRecord::DelayedReceipt(receipt) => StateRecord::DelayedReceipt(clone_receipt(receipt)),
        }
    }
}

impl StateRecordView {
    /// The account that the record belongs to: the account that it names,
    /// or the account that its receipt is addressed to.
    pub open spec fn account_id(self) -> Seq<char> {
        match self {
            StateRecordView::Account { account_id, .. } => account_id,
            StateRecordView::Data { account_id, .. } => account_id,
            StateRecordView::Contract { account_id, .. } => account_id,
            StateRecordView::AccessKey { account_id, .. } => account_id,
            StateRecordView::PostponedReceipt(receipt) => receiver_of(receipt),
            StateRecordView::ReceivedData { account_id, .. } => account_id,
            StateRecordView::DelayedReceipt(receipt) => receiver_of(receipt),
        }
    }
}

impl StateRecord {
    /// The account that the record belongs to.
    pub fn account_id(&self) -> (r: AccountId)
        ensures
            r@ == self@.account_id(),
    {
        match self {
            StateRecord::Account { account_id, .. } => account_id.clone(),
            StateRecord::Data { account_id, .. } => account_id.clone(),
            StateRecord::Contract { account_id, .. } => account_id.clone(),
            StateRecord::AccessKey { account_id, .. } => account_id.clone(),
            StateRecord::PostponedReceipt(receipt) => receipt_receiver(receipt),
            StateRecord::ReceivedData { account_id, .. } => account_id.clone(),
            StateRecord::DelayedReceipt(receipt) => receipt_receiver(receipt),
        }
    }
}

} // verus!
