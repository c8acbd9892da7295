//! What the engine reports of the transactions and receipts it executed.

use near_primitives::errors::TxExecutionError;
use vstd::prelude::*;
use crate::account::{AccountId, Balance, Gas};
use crate::hash::CryptoHash;

verus! {

/// The error of `near_primitives` with which the execution of a transaction
/// or receipt failed. The harness hands it on; it never looks inside.
#[verifier::external_type_specification]
#[verifier::external_body]
pub struct ExTxExecutionError(near_primitives::errors::TxExecutionError);

/// The error of `near_primitives` with which the engine refuses to apply a
/// block. The harness hands it on; it never looks inside.
#[verifier::external_type_specification]
#[verifier::external_body]
pub struct ExRuntimeError(near_primitives::errors::RuntimeError);

/// Calls `Clone::clone` on a `TxExecutionError`: the copy is equal to the
/// error.
#[verifier::external_body]
fn clone_error(error: &TxExecutionError) -> (r: TxExecutionError)
    ensures
        r == *error,
{
    error.clone()
}

/// How the execution of a transaction or receipt ended.
#[derive(Debug, PartialEq, Eq)]
pub enum ExecutionStatus {
    /// Pending or unknown. The engine never hands this out for work it has done.
    Unknown,
    /// The execution failed.
    Failure(TxExecutionError),
    /// The last action succeeded and returned these bytes.
    SuccessValue(Vec<u8>),
    /// The execution goes on in the receipt with this id.
    SuccessReceiptId(CryptoHash),
}

/// What an `ExecutionStatus` is in contracts.
pub enum ExecutionStatusView {
    Unknown,
    Failure(TxExecutionError),
    SuccessValue(Seq<u8>),
    SuccessReceiptId(Seq<u8>),
}

impl View for ExecutionStatus {
    type V = ExecutionStatusView;

    open spec fn view(&self) -> ExecutionStatusView {
        match *self {
            ExecutionStatus::Unknown => ExecutionStatusView::Unknown,
            ExecutionStatus::Failure(error) => ExecutionStatusView::Failure(error),
            ExecutionStatus::SuccessValue(value) => ExecutionStatusView::SuccessValue(value@),
            ExecutionStatus::SuccessReceiptId(id) => ExecutionStatusView::SuccessReceiptId(id@),
        }
    }
}

impl Clone for ExecutionStatus {
    fn clone(&self) -> (r: Self)
        ensures
            r@ == self@,
    {
        match self {
            ExecutionStatus::Unknown => ExecutionStatus::Unknown,
            ExecutionStatus::Failure(error) => ExecutionStatus::Failure(clone_error(error)),
            ExecutionStatus::SuccessValue(value) => ExecutionStatus::SuccessValue(value.clone()),
            ExecutionStatus::SuccessReceiptId(id) => ExecutionStatus::SuccessReceiptId(*id),
        }
    }
}

impl ExecutionStatusView {
    /// Whether the status ends a chain of receipts: a value or a failure.
    pub open spec fn is_terminal(self) -> bool {
        self is SuccessValue || self is Failure
    }
}

/// The gas that an execution spent, by the costs of the older cost table,
/// in the order of that table.
#[derive(Debug, PartialEq, Eq)]
pub struct ProfileDataV2 {
    pub costs: Vec<u64>,
}

impl View for ProfileDataV2 {
    type V = Seq<u64>;

    open spec fn view(&self) -> Seq<u64> {
        self.costs@
    }
}

impl Clone for ProfileDataV2 {
    fn clone(&self) -> (r: Self)
        ensures
            r@ == self@,
    {
        ProfileDataV2 { costs: self.costs.clone() }
    }
}

/// The gas that an execution spent, by the costs of the newer cost table.
#[derive(Debug, PartialEq, Eq)]
pub struct ProfileDataV3 {
    /// Gas spent on sending or executing actions, action cost by action cost.
    pub actions: Vec<u64>,
    /// Gas spent outside the virtual machine while a contract ran, cost by
    /// cost.
    pub wasm_ext: Vec<u64>,
    /// Gas spent inside the virtual machine.
    pub wasm_gas: Gas,
}

/// What a `ProfileDataV3` is in contracts.
pub struct ProfileDataV3View {
    pub actions: Seq<u64>,
    pub wasm_ext: Seq<u64>,
    pub wasm_gas: Gas,
}

impl View for ProfileDataV3 {
    type V = ProfileDataV3View;

    open spec fn view(&self) -> ProfileDataV3View {
        ProfileDataV3View { actions: self.actions@, wasm_ext: self.wasm_ext@, wasm_gas: self.wasm_gas }
    }
}

impl Clone for ProfileDataV3 {
    fn clone(&self) -> (r: Self)
        ensures
            r@ == self@,
    {
        ProfileDataV3 {
            actions: self.actions.clone(),
            wasm_ext: self.wasm_ext.clone(),
            wasm_gas: self.wasm_gas,
        }
    }
}

/// The profile of an execution, in either form.
#[derive(Debug, PartialEq, Eq)]
pub enum ProfileData {
    V2(ProfileDataV2),
    V3(ProfileDataV3),
}

/// What a `ProfileData` is in contracts.
pub enum ProfileDataView {
    V2(Seq<u64>),
    V3(ProfileDataV3View),
}

impl View for ProfileData {
    type V = ProfileDataView;

    open spec fn view(&self) -> ProfileDataView {
        match *self {
            ProfileData::V2(profile) => ProfileDataView::V2(profile@),
            ProfileData::V3(profile) => ProfileDataView::V3(profile@),
        }
    }
}

impl Clone for ProfileData {
    fn clone(&self) -> (r: Self)
        ensures
            r@ == self@,
    {
        match self {
            ProfileData::V2(profile) => ProfileData::V2(profile.clone()),
            ProfileData::V3(profile) => ProfileData::V3(profile.clone()),
        }
    }
}

/// What the engine tells about an execution beside its result.
#[derive(Debug, PartialEq, Eq)]
pub enum ExecutionMetadata {
    /// Nothing.
    V1,
    /// The profile of the gas spent, by the older cost table.
    V2(ProfileDataV2),
    /// The profile of the gas spent, by the newer cost table.
    V3(ProfileDataV3),
}

/// What an `ExecutionMetadata` is in contracts.
pub enum ExecutionMetadataView {
    V1,
    V2(Seq<u64>),
    V3(ProfileDataV3View),
}

impl ExecutionMetadataView {
    /// The profile that the metadata carries, if any.
    pub open spec fn profile(self) -> Option<ProfileDataView> {
        match self {
            ExecutionMetadataView::V1 => None,
            ExecutionMetadataView::V2(profile) => Some(ProfileDataView::V2(profile)),
            ExecutionMetadataView::V3(profile) => Some(ProfileDataView::V3(profile)),
        }
    }
}

impl View for ExecutionMetadata {
    type V = ExecutionMetadataView;

    open spec fn view(&self) -> ExecutionMetadataView {
        match *self {
            ExecutionMetadata::V1 => ExecutionMetadataView::V1,
            ExecutionMetadata::V2(profile) => ExecutionMetadataView::V2(profile@),
            ExecutionMetadata::V3(profile) => ExecutionMetadataView::V3(profile@),
        }
    }
}

impl Clone for ExecutionMetadata {
    fn clone(&self) -> (r: Self)
        ensures
            r@ == self@,
    {
        match self {
            ExecutionMetadata::V1 => ExecutionMetadata::V1,
            ExecutionMetadata::V2(profile) => ExecutionMetadata::V2(profile.clone()),
            ExecutionMetadata::V3(profile) => ExecutionMetadata::V3(profile.clone()),
        }
    }
}

impl ExecutionMetadata {
    /// A copy of the profile that the metadata carries, if any.
    pub fn profile(&self) -> (r: Option<ProfileData>)
        ensures
            match r {
                Some(profile) => self@.profile() == Some(profile@),
                None => self@.profile() is None,
            },
    {
        match self {
            ExecutionMetadata::V1 => None,
            ExecutionMetadata::V2(profile) => Some(ProfileData::V2(profile.clone())),
            ExecutionMetadata::V3(profile) => Some(ProfileData::V3(profile.clone())),
        }
    }
}

/// The recorded result of executing one transaction or one receipt.
#[derive(Debug, PartialEq, Eq)]
pub struct ExecutionOutcome {
    /// The lines that the execution logged.
    pub logs: Vec<String>,
    /// The receipts that the execution made.
    pub receipt_ids: Vec<CryptoHash>,
    /// The gas that it burnt.
    pub gas_burnt: Gas,
    /// The tokens that were burnt to pay for that gas.
    pub tokens_burnt: Balance,
    /// The account on which it ran.
    pub executor_id: AccountId,
    /// How it ended.
    pub status: ExecutionStatus,
    /// What else the engine tells about it.
    pub metadata: ExecutionMetadata,
}

/// What an `ExecutionOutcome` is in contracts.
pub struct ExecutionOutcomeView {
    pub logs: Seq<Seq<char>>,
    pub receipt_ids: Seq<Seq<u8>>,
    pub gas_burnt: Gas,
    pub tokens_burnt: Balance,
    pub executor_id: Seq<char>,
    pub status: ExecutionStatusView,
    pub metadata: ExecutionMetadataView,
}

impl View for ExecutionOutcome {
    type V = ExecutionOutcomeView;

    open spec fn view(&self) -> ExecutionOutcomeView {
        ExecutionOutcomeView {
            logs: self.logs.deep_view(),
            receipt_ids: self.receipt_ids.deep_view(),
            gas_burnt: self.gas_burnt,
            tokens_burnt: self.tokens_burnt,
            executor_id: self.executor_id@,
            status: self.status@,
            metadata: self.metadata@,
        }
    }
}

impl Clone for ExecutionOutcome {
    fn clone(&self) -> (r: Self)
        ensures
            r@ == self@,
    {
        let logs = self.logs.clone();
        let receipt_ids = self.receipt_ids.clone();
        assert(logs.deep_view() =~= self.logs.deep_view());
        assert(receipt_ids.deep_view() =~= self.receipt_ids.deep_view());
        ExecutionOutcome {
            logs,
            receipt_ids,
            gas_burnt: self.gas_burnt,
            tokens_burnt: self.tokens_burnt,
            executor_id: self.executor_id.clone(),
            status: self.status.clone(),
            metadata: self.metadata.clone(),
        }
    }
}

/// An outcome together with the hash of the transaction or receipt that it
/// belongs to.
#[derive(Debug, PartialEq, Eq)]
pub struct ExecutionOutcomeWithId {
    pub id: CryptoHash,
    pub outcome: ExecutionOutcome,
}

} // verus!
