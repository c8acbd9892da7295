//! The books of a simulation: the current block, the submitted transactions,
//! the outcomes and the pending receipts, and how each block changes them.

use near_primitives::errors::RuntimeError;
use near_primitives::receipt::Receipt;
use near_primitives::transaction::SignedTransaction;
use vstd::prelude::*;
use crate::account::{Balance, BlockHeight, EpochHeight, Gas};
use crate::block::{epoch_of, Block};
use crate::bytemap::ByteMap;
use crate::genesis::{protocol_version, GenesisConfig};
use crate::hash::{zero_hash, CryptoHash};
use crate::outcome::{
    ExecutionOutcome, ExecutionOutcomeView,
    ExecutionOutcomeWithId, ExecutionStatus, ExecutionStatusView, ProfileData, ProfileDataView,
};

verus! {

/// A signed transaction of `near_primitives`. The harness records it and
/// hands it on; it never looks inside.
#[verifier::external_type_specification]
#[verifier::external_body]
pub struct ExSignedTransaction(near_primitives::transaction::SignedTransaction);

/// A receipt of `near_primitives`. The harness carries receipts from one
/// block to the next; it never looks inside.
#[verifier::external_type_specification]
#[verifier::external_body]
pub struct ExReceipt(near_primitives::receipt::Receipt);

/// The hash that a signed transaction carries.
pub uninterp spec fn hash_of_transaction(tx: SignedTransaction) -> Seq<u8>;

/// A signed transaction after its hash has been computed anew from its
/// content.
pub uninterp spec fn initialized(tx: SignedTransaction) -> SignedTransaction;

/// Calls `SignedTransaction::get_hash`, which returns the hash that the
/// transaction carries. The contract claims that the hash depends on the
/// transaction alone.
#[verifier::external_body]
fn transaction_hash(tx: &SignedTransaction) -> (r: CryptoHash)
    ensures
        r@ == hash_of_transaction(*tx),
{
    CryptoHash(tx.get_hash().0)
}

/// Calls `SignedTransaction::init`, which computes the hash of the
/// transaction anew and stores it in the transaction. The contract claims
/// that the result depends on the transaction alone.
#[verifier::external_body]
fn init_transaction(tx: SignedTransaction) -> (r: SignedTransaction)
    ensures
        r == initialized(tx),
{
    let mut tx = tx;
    tx.init();
    tx
}

/// What the engine answers when it has applied one block.
pub struct ApplyResult {
    /// The root of the state after the block.
    pub state_root: CryptoHash,
    /// The receipts that the block leaves for the next one.
    pub outgoing_receipts: Vec<Receipt>,
    /// The outcome of each transaction and receipt that the block executed,
    /// in the order of execution.
    pub outcomes: Vec<ExecutionOutcomeWithId>,
}

/// What the engine is told of the block that it is to apply.
#[derive(Clone, Copy, Debug, PartialEq, Eq)]
pub struct ApplyState {
    pub block_index: BlockHeight,
    pub epoch_height: EpochHeight,
    pub gas_price: Balance,
    pub block_timestamp: u64,
    /// The gas limit of the block. The harness sets none.
    pub gas_limit: Option<Gas>,
    pub current_protocol_version: u32,
    pub is_new_chunk: bool,
    /// The root of the state that the block starts from.
    pub state_root: CryptoHash,
}

/// What the engine is told of the block against which a view call runs.
#[derive(Clone, Copy, Debug, PartialEq, Eq)]
pub struct ViewApplyState {
    pub block_height: BlockHeight,
    /// The state root of the block before the current one.
    pub prev_block_hash: CryptoHash,
    pub epoch_height: EpochHeight,
    pub block_timestamp: u64,
    pub current_protocol_version: u32,
    /// The state root of the current block.
    pub block_hash: CryptoHash,
}

/// The books of the harness as contracts see them.
pub struct Ledger {
    /// Every transaction that was submitted, by its hash.
    pub transactions: Map<Seq<u8>, SignedTransaction>,
    /// Every outcome that the engine has returned, by its id.
    pub outcomes: Map<Seq<u8>, ExecutionOutcomeView>,
    /// The profile of each outcome that came with one, by the outcome's id.
    pub profile: Map<Seq<u8>, ProfileDataView>,
    /// The receipts that the last block left for the next one.
    pub pending_receipts: Seq<Receipt>,
    /// The ids of the outcomes since the last call of `resolve_tx`, in the
    /// order in which the engine returned them.
    pub last_outcomes: Seq<Seq<u8>>,
}

impl Ledger {
    /// The books after the outcomes of one block have been entered, one after
    /// the other: each outcome under its id, its id at the end of the list of
    /// last outcomes, and its profile, if it has one, under its id.
    pub open spec fn recorded(self, outcomes: Seq<ExecutionOutcomeWithId>) -> Ledger
        decreases outcomes.len(),
    {
        if outcomes.len() == 0 {
            self
        } else {
            let before = self.recorded(outcomes.drop_last());
            let last = outcomes.last();
            Ledger {
                outcomes: before.outcomes.insert(last.id@, last.outcome@),
                profile: match last.outcome.metadata@.profile() {
                    Some(profile) => before.profile.insert(last.id@, profile),
                    None => before.profile,
                },
                last_outcomes: before.last_outcomes.push(last.id@),
                ..before
            }
        }
    }

    /// The books after one block: the outcomes of the block are entered, and
    /// the receipts that the block leaves take the place of the pending ones.
    pub open spec fn applied(self, result: ApplyResult) -> Ledger {
        Ledger { pending_receipts: result.outgoing_receipts@, ..self.recorded(result.outcomes@) }
    }

    /// The books after a run of blocks, one after the other.
    pub open spec fn applied_all(self, results: Seq<ApplyResult>) -> Ledger
        decreases results.len(),
    {
        if results.len() == 0 {
            self
        } else {
            self.applied_all(results.drop_last()).applied(results.last())
        }
    }

    /// What `resolve_tx` does with the id `key` after a block. An outcome
    /// that continues in a receipt moves the search on to that receipt; a
    /// value or a failure ends it. Where the id has no outcome yet, the
    /// search goes on while receipts are pending, and has lost the outcome
    /// when none is.
    pub open spec fn resolution(self, key: Seq<u8>) -> ResolutionView {
        if self.outcomes.contains_key(key) {
            match self.outcomes[key].status {
                ExecutionStatusView::Unknown => ResolutionView::UnknownStatus(key),
                ExecutionStatusView::SuccessReceiptId(id) => ResolutionView::Pending(id),
                ExecutionStatusView::SuccessValue(_) => ResolutionView::Done(key, self.outcomes[key]),
                ExecutionStatusView::Failure(_) => ResolutionView::Done(key, self.outcomes[key]),
            }
        } else if self.pending_receipts.len() == 0 {
            ResolutionView::LostOutcome(key)
        } else {
            ResolutionView::Pending(key)
        }
    }

    /// What `resolve_tx` comes to, and after how many blocks, when it starts
    /// at the id `key` and the engine answers block after block with
    /// `results`. It is still pending where the results run out first.
    pub open spec fn resolve_run(self, key: Seq<u8>, results: Seq<ApplyResult>) -> (ResolutionView, nat)
        decreases results.len(),
    {
        if results.len() == 0 {
            (ResolutionView::Pending(key), 0)
        } else {
            let next = self.applied(results[0]);
            match next.resolution(key) {
                ResolutionView::Pending(id) => {
                    let (end, blocks) = next.resolve_run(id, results.drop_first());
                    (end, blocks + 1)
                },
                end => (end, 1),
            }
        }
    }
}

/// The same items in the opposite order, so that the first can be taken off
/// the end.
fn backwards<T>(items: Vec<T>) -> (r: Vec<T>)
    ensures
        r@.len() == items@.len(),
        forall|i: int| 0 <= i < r@.len() ==> #[trigger] r@[i] == items@[items@.len() - 1 - i],
{
    let mut rest = items;
    let mut r: Vec<T> = Vec::new();
    loop
        invariant
            r@.len() + rest@.len() == items@.len(),
            forall|i: int| 0 <= i < rest@.len() ==> #[trigger] rest@[i] == items@[i],
            forall|i: int| 0 <= i < r@.len() ==> #[trigger] r@[i] == items@[items@.len() - 1 - i],
        ensures
            r@.len() == items@.len(),
            forall|i: int| 0 <= i < r@.len() ==> #[trigger] r@[i] == items@[items@.len() - 1 - i],
        decreases rest@.len(),
    {
        match rest.pop() {
            Some(item) => {
                r.push(item);
            },
            None => {
                break ;
            },
        }
    }
    r
}

/// The number of blocks that a run of answers of the engine makes: the
/// answers before the first error.
pub open spec fn blocks_made(answers: Seq<Result<ApplyResult, RuntimeError>>) -> nat
    decreases answers.len(),
{
    if answers.len() == 0 {
        0
    } else if answers[0] is Ok {
        1 + blocks_made(answers.drop_first())
    } else {
        0
    }
}

/// The answers of the engine before the first error.
pub open spec fn successes(answers: Seq<Result<ApplyResult, RuntimeError>>) -> Seq<ApplyResult> {
    Seq::new(blocks_made(answers), |i: int| answers[i]->Ok_0)
}

/// Where the first `made` answers are blocks, and what follows is an error
/// or nothing, the run makes `made` blocks.
pub proof fn lemma_blocks_made(answers: Seq<Result<ApplyResult, RuntimeError>>, made: int)
    requires
        0 <= made <= answers.len(),
        forall|i: int| 0 <= i < made ==> (#[trigger] answers[i]) is Ok,
        made == answers.len() || answers[made] is Err,
    ensures
        blocks_made(answers) == made,
    decreases made,
{
    if made > 0 {
        let rest = answers.drop_first();
        assert forall|i: int| 0 <= i < made - 1 implies (#[trigger] rest[i]) is Ok by {
            assert(answers[i + 1] is Ok);
        }
        lemma_blocks_made(rest, made - 1);
        assert(answers[0] is Ok);
    }
}

/// A run whose first `made` answers are blocks makes at least `made` blocks.
proof fn lemma_blocks_made_at_least(answers: Seq<Result<ApplyResult, RuntimeError>>, made: int)
    requires
        0 <= made <= answers.len(),
        forall|i: int| 0 <= i < made ==> (#[trigger] answers[i]) is Ok,
    ensures
        blocks_made(answers) >= made,
    decreases made,
{
    if made > 0 {
        let rest = answers.drop_first();
        assert forall|i: int| 0 <= i < made - 1 implies (#[trigger] rest[i]) is Ok by {
            assert(answers[i + 1] is Ok);
        }
        lemma_blocks_made_at_least(rest, made - 1);
        assert(answers[0] is Ok);
    }
}

/// Whether the block with the answer `result` settles the id `key` with
/// `outcome`: that is the last outcome that the block returns for `key`.
pub open spec fn settles(result: ApplyResult, key: Seq<u8>, outcome: ExecutionOutcomeView) -> bool {
    exists|i: int|
        {
            &&& 0 <= i < result.outcomes@.len()
            &&& (#[trigger] result.outcomes@[i]).id@ == key
            &&& result.outcomes@[i].outcome@ == outcome
            &&& forall|j: int| i < j < result.outcomes@.len() ==> (#[trigger] result.outcomes@[j]).id@ != key
        }
}

/// What `resolve_tx` does after a block.
#[derive(Debug, PartialEq, Eq)]
pub enum Resolution {
    /// Nothing final yet: produce another block, then look for the outcome
    /// of this id.
    Pending(CryptoHash),
    /// The chain of receipts ended in this outcome, a value or a failure,
    /// recorded under this id.
    Done(CryptoHash, ExecutionOutcome),
    /// The books are broken: this id has no outcome and no receipt is
    /// pending that could still bring one.
    LostOutcome(CryptoHash),
    /// The books are broken: the outcome of this id has an unknown status.
    UnknownStatus(CryptoHash),
}

/// What a `Resolution` is in contracts.
pub enum ResolutionView {
    Pending(Seq<u8>),
    Done(Seq<u8>, ExecutionOutcomeView),
    LostOutcome(Seq<u8>),
    UnknownStatus(Seq<u8>),
}

impl View for Resolution {
    type V = ResolutionView;

    open spec fn view(&self) -> ResolutionView {
        match *self {
            Resolution::Pending(id) => ResolutionView::Pending(id@),
            Resolution::Done(id, outcome) => ResolutionView::Done(id@, outcome@),
            Resolution::LostOutcome(id) => ResolutionView::LostOutcome(id@),
            Resolution::UnknownStatus(id) => ResolutionView::UnknownStatus(id@),
        }
    }
}

/// The books of a simulated chain: the current block with its history, the
/// transactions that were submitted, the outcomes that the engine returned,
/// and the receipts that wait for the next block. The engine and the store
/// are not in here: the caller asks them, block by block, and hands their
/// answers in.
pub struct RuntimeStandalone {
    pub genesis: GenesisConfig,
    /// The protocol version that the engine is asked to run.
    pub protocol_version: u32,
    pub transactions: ByteMap<SignedTransaction>,
    pub outcomes: ByteMap<ExecutionOutcome>,
    pub profile: ByteMap<ProfileData>,
    pub cur_block: Block,
    pub pending_receipts: Vec<Receipt>,
    pub last_outcomes: Vec<CryptoHash>,
}

impl View for RuntimeStandalone {
    type V = Ledger;

    open spec fn view(&self) -> Ledger {
        Ledger {
            transactions: self.transactions@,
            outcomes: self.outcomes@.map_values(|outcome: ExecutionOutcome| outcome@),
            profile: self.profile@.map_values(|profile: ProfileData| profile@),
            pending_receipts: self.pending_receipts@,
            last_outcomes: self.last_outcomes.deep_view(),
        }
    }
}

impl RuntimeStandalone {
    /// The invariant of the harness: its tables are in order; every id in
    /// the list of last outcomes, and every id with a profile, has an
    /// outcome in the books; an epoch has at least one block; and the
    /// history of the current block is linked and starts at the height and
    /// time that the genesis names.
    pub open spec fn wf(&self) -> bool {
        &&& self.transactions.wf()
        &&& self.outcomes.wf()
        &&& self.profile.wf()
        &&& forall|i: int|
            0 <= i < self@.last_outcomes.len() ==> self@.outcomes.contains_key(#[trigger] self@.last_outcomes[i])
        &&& forall|key: Seq<u8>| #[trigger]
            self@.profile.contains_key(key) ==> self@.outcomes.contains_key(key)
        &&& self.genesis.epoch_length > 0
        &&& self.cur_block.linked(self.genesis.epoch_length, self.genesis.block_prod_time)
        &&& self.cur_block.first().block_height == self.genesis.genesis_height
        &&& self.cur_block.first().block_timestamp == self.genesis.genesis_time
    }

    /// Whether the current block can be followed by another one: its height
    /// and the time of the next block fit in 64 bits.
    pub open spec fn can_produce(&self) -> bool {
        &&& self.cur_block.block_height < u64::MAX
        &&& self.cur_block.block_timestamp + self.genesis.block_prod_time <= u64::MAX
    }

    /// Whether the current block can be followed by another one.
    pub fn can_produce_block(&self) -> (r: bool)
        ensures
            r == self.can_produce(),
    {
        self.cur_block.block_height < u64::MAX && self.cur_block.block_timestamp <= u64::MAX
            - self.genesis.block_prod_time
    }

    /// After `n` blocks have been produced from a genesis at height `h`, the
    /// current block has height `h + n` and lies in epoch
    /// `(h + n) / epoch_length`, whatever the engine answered.
    pub proof fn lemma_height_after_blocks(&self)
        requires
            self.wf(),
        ensures
            self.cur_block.block_height == self.genesis.genesis_height + self.cur_block.depth(),
            self.cur_block.epoch_height == (self.genesis.genesis_height + self.cur_block.depth())
                / self.genesis.epoch_length as int,
            self.cur_block.block_timestamp == self.genesis.genesis_time + self.cur_block.depth()
                * self.genesis.block_prod_time,
    {
        self.cur_block.lemma_height_after_blocks(self.genesis.epoch_length, self.genesis.block_prod_time);
    }

    /// The harness at the start of a chain: the genesis block, with the
    /// state root that the engine computed from the genesis, and empty books.
    pub fn new(genesis: GenesisConfig, state_root: CryptoHash) -> (r: Self)
        requires
            genesis.epoch_length > 0,
        ensures
            r.wf(),
            r.genesis == genesis,
            r.cur_block.prev_block is None,
            r.cur_block.state_root == state_root,
            r.cur_block.gas_burnt == 0,
            r.cur_block.block_height == genesis.genesis_height,
            r.cur_block.epoch_height == epoch_of(
                genesis.genesis_height as int,
                genesis.epoch_length as int,
            ),
            r.cur_block.block_timestamp == genesis.genesis_time,
            r.cur_block.gas_price == genesis.gas_price,
            r.cur_block.gas_limit == genesis.gas_limit,
            r@.transactions == Map::<Seq<u8>, SignedTransaction>::empty(),
            r@.outcomes == Map::<Seq<u8>, ExecutionOutcomeView>::empty(),
            r@.profile == Map::<Seq<u8>, ProfileDataView>::empty(),
            r@.pending_receipts.len() == 0,
            r@.last_outcomes.len() == 0,
    {
        let mut genesis_block = Block::genesis(&genesis);
        genesis_block.state_root = state_root;
        let r = RuntimeStandalone {
            genesis,
            protocol_version: protocol_version(),
            transactions: ByteMap::new(),
            outcomes: ByteMap::new(),
            profile: ByteMap::new(),
            cur_block: genesis_block,
            pending_receipts: Vec::new(),
            last_outcomes: Vec::new(),
        };
        assert(r@.outcomes =~= Map::<Seq<u8>, ExecutionOutcomeView>::empty());
        assert(r@.profile =~= Map::<Seq<u8>, ProfileDataView>::empty());
        assert(r@.last_outcomes =~= Seq::<Seq<u8>>::empty());
        r
    }

    /// Records `tx` under its hash and returns the hash. No block is
    /// produced: the transaction waits in the pool of whoever drives the
    /// harness.
    pub fn send_tx(&mut self, tx: SignedTransaction) -> (tx_hash: CryptoHash)
        requires
            old(self).wf(),
        ensures
            final(self).wf(),
            tx_hash@ == hash_of_transaction(tx),
            final(self)@ == (Ledger {
                transactions: old(self)@.transactions.insert(tx_hash@, tx),
                ..old(self)@
            }),
            final(self).cur_block == old(self).cur_block,
            final(self).genesis == old(self).genesis,
            final(self).protocol_version == old(self).protocol_version,
    {
        let tx_hash = transaction_hash(&tx);
        self.transactions.insert(&tx_hash.0, tx);
        assert(self@.outcomes == old(self)@.outcomes);
        assert(self@.profile == old(self)@.profile);
        assert(self@.last_outcomes == old(self)@.last_outcomes);
        tx_hash
    }

    /// Starts the resolution of `tx`: computes its hash anew, records the
    /// transaction under that hash, and forgets the outcome ids of the chain
    /// resolved before. Returns the hash, which is the first id to look for
    /// once a block has been produced. The recorded transaction is the one
    /// to hand to the pool.
    pub fn resolve_tx(&mut self, tx: SignedTransaction) -> (tx_hash: CryptoHash)
        requires
            old(self).wf(),
        ensures
            final(self).wf(),
            tx_hash@ == hash_of_transaction(initialized(tx)),
            final(self)@ == (Ledger {
                transactions: old(self)@.transactions.insert(tx_hash@, initialized(tx)),
                last_outcomes: Seq::empty(),
                ..old(self)@
            }),
            final(self).cur_block == old(self).cur_block,
            final(self).genesis == old(self).genesis,
            final(self).protocol_version == old(self).protocol_version,
    {
        let tx = init_transaction(tx);
        let tx_hash = transaction_hash(&tx);
        self.transactions.insert(&tx_hash.0, tx);
        self.last_outcomes = Vec::new();
        assert(self@.outcomes == old(self)@.outcomes);
        assert(self@.profile == old(self)@.profile);
        assert(self@.last_outcomes =~= Seq::<Seq<u8>>::empty());
        tx_hash
    }

    /// What `resolve_tx` does next, once a block has been produced, when it
    /// looks for the outcome of `outcome_hash`.
    pub fn resolve_step(&self, outcome_hash: &CryptoHash) -> (r: Resolution)
        requires
            self.wf(),
        ensures
            r@ == self@.resolution(outcome_hash@),
    {
        match self.outcomes.get(&outcome_hash.0) {
            Some(outcome) => match &outcome.status {
                ExecutionStatus::Unknown => Resolution::UnknownStatus(*outcome_hash),
                ExecutionStatus::SuccessReceiptId(id) => Resolution::Pending(*id),
                ExecutionStatus::SuccessValue(_) | ExecutionStatus::Failure(_) => Resolution::Done(
                    *outcome_hash,
                    outcome.clone(),
                ),
            },
            None => if self.pending_receipts.len() == 0 {
                Resolution::LostOutcome(*outcome_hash)
            } else {
                Resolution::Pending(*outcome_hash)
            },
        }
    }

    /// The outcome recorded under `hash`.
    pub fn outcome(&self, hash: &CryptoHash) -> (r: Option<ExecutionOutcome>)
        requires
            self.wf(),
        ensures
            match r {
                Some(outcome) => self@.outcomes.contains_key(hash@) && outcome@ == self@.outcomes[hash@],
                None => !self@.outcomes.contains_key(hash@),
            },
    {
        match self.outcomes.get(&hash.0) {
            Some(outcome) => Some(outcome.clone()),
            None => None,
        }
    }

    /// The profile recorded for the outcome `hash`.
    pub fn profile_of_outcome(&self, hash: &CryptoHash) -> (r: Option<ProfileData>)
        requires
            self.wf(),
        ensures
            match r {
                Some(profile) => self@.profile.contains_key(hash@) && profile@ == self@.profile[hash@],
                None => !self@.profile.contains_key(hash@),
            },
    {
        match self.profile.get(&hash.0) {
            Some(profile) => Some(profile.clone()),
            None => None,
        }
    }

    /// Whether `process_all` is done: no receipt waits for another block.
    pub fn all_processed(&self) -> (r: bool)
        ensures
            r == (self@.pending_receipts.len() == 0),
    {
        self.pending_receipts.len() == 0
    }

    /// What the engine is told of the block to apply next: the height, epoch,
    /// gas price and time of the current block, no gas limit, the protocol
    /// version, and the current state root. The configuration of the engine
    /// is that of the genesis.
    pub fn apply_state(&self) -> (r: ApplyState)
        ensures
            r == (ApplyState {
                block_index: self.cur_block.block_height,
                epoch_height: self.cur_block.epoch_height,
                gas_price: self.cur_block.gas_price,
                block_timestamp: self.cur_block.block_timestamp,
                gas_limit: None,
                current_protocol_version: self.protocol_version,
                is_new_chunk: true,
                state_root: self.cur_block.state_root,
            }),
    {
        ApplyState {
            block_index: self.cur_block.block_height,
            epoch_height: self.cur_block.epoch_height,
            gas_price: self.cur_block.gas_price,
            block_timestamp: self.cur_block.block_timestamp,
            gas_limit: None,
            current_protocol_version: self.protocol_version,
            is_new_chunk: true,
            state_root: self.cur_block.state_root,
        }
    }

    /// Enters the outcomes of one block into the books.
    fn record_outcomes(&mut self, outcomes: &Vec<ExecutionOutcomeWithId>)
        requires
            old(self).wf(),
        ensures
            final(self).wf(),
            final(self)@ == old(self)@.recorded(outcomes@),
            final(self).cur_block == old(self).cur_block,
            final(self).genesis == old(self).genesis,
            final(self).protocol_version == old(self).protocol_version,
    {
        let mut i: usize = 0;
        while i < outcomes.len()
            invariant
                i <= outcomes@.len(),
                self.wf(),
                self@ == old(self)@.recorded(outcomes@.subrange(0, i as int)),
                self.cur_block == old(self).cur_block,
                self.genesis == old(self).genesis,
                self.protocol_version == old(self).protocol_version,
            decreases outcomes@.len() - i,
        {
            let entry = &outcomes[i];
            self.last_outcomes.push(entry.id);
            self.outcomes.insert(&entry.id.0, entry.outcome.clone());
            match entry.outcome.metadata.profile() {
                Some(profile) => {
                    self.profile.insert(&entry.id.0, profile);
                },
                None => {},
            }
            proof {
                let upto = outcomes@.subrange(0, i + 1);
                assert(upto.drop_last() =~= outcomes@.subrange(0, i as int));
                assert(upto.last() == outcomes@[i as int]);
                let want = old(self)@.recorded(upto);
                assert(self@.outcomes =~= want.outcomes);
                assert(self@.profile =~= want.profile);
                assert(self@.last_outcomes =~= want.last_outcomes);
            }
            i = i + 1;
        }
        assert(outcomes@.subrange(0, i as int) =~= outcomes@);
    }

    /// Closes one block with the engine's answer. On an error of the engine
    /// nothing changes and the error is returned. Else the outcomes of the
    /// block are entered into the books, the receipts that the block leaves
    /// take the place of the pending ones, and a block that follows the
    /// current one, with the new state root, becomes the current block.
    pub fn produce_block(&mut self, applied: Result<ApplyResult, RuntimeError>) -> (r: Result<
        (),
        RuntimeError,
    >)
        requires
            old(self).wf(),
            applied is Ok ==> old(self).can_produce(),
        ensures
            final(self).wf(),
            final(self).genesis == old(self).genesis,
            final(self).protocol_version == old(self).protocol_version,
            match applied {
                Ok(result) => {
                    &&& r is Ok
                    &&& final(self)@ == old(self)@.applied(result)
                    &&& final(self).cur_block.follows(
                        &old(self).cur_block,
                        result.state_root@,
                        old(self).genesis.epoch_length,
                        old(self).genesis.block_prod_time,
                    )
                    &&& final(self).cur_block.depth() == old(self).cur_block.depth() + 1
                },
                Err(error) => {
                    &&& r == Err::<(), RuntimeError>(error)
                    &&& final(self)@ == old(self)@
                    &&& final(self).cur_block == old(self).cur_block
                },
            },
    {
        match applied {
            Ok(result) => {
                let ApplyResult { state_root, outgoing_receipts, outcomes } = result;
                self.pending_receipts = outgoing_receipts;
                self.record_outcomes(&outcomes);
                self.cur_block = self.cur_block.produce(
                    state_root,
                    self.genesis.epoch_length,
                    self.genesis.block_prod_time,
                );
                proof {
                    let start = Ledger { pending_receipts: outgoing_receipts@, ..old(self)@ };
                    lemma_recorded_keeps(old(self)@, outcomes@);
                    lemma_recorded_keeps(start, outcomes@);
                    lemma_recorded_same(old(self)@, start, outcomes@);
                }
                Ok(())
            },
            Err(error) => Err(error),
        }
    }

    /// Follows the outcome of `outcome_hash` through a run of blocks: closes
    /// one block after the other with the engine's answers and looks for
    /// the outcome after each, as `resolve_step` says, until the search
    /// ends. Where the answers run out first, the search is still pending.
    /// Answers that are left over make no block.
    pub fn resolve_through(&mut self, outcome_hash: CryptoHash, results: Vec<ApplyResult>) -> (r: Resolution)
        requires
            old(self).wf(),
            old(self).cur_block.block_height + old(self)@.resolve_run(outcome_hash@, results@).1
                <= u64::MAX,
            old(self).cur_block.block_timestamp + old(self)@.resolve_run(outcome_hash@, results@).1
                * old(self).genesis.block_prod_time <= u64::MAX,
        ensures
            final(self).wf(),
            final(self).genesis == old(self).genesis,
            final(self).protocol_version == old(self).protocol_version,
            r@ == old(self)@.resolve_run(outcome_hash@, results@).0,
            old(self)@.resolve_run(outcome_hash@, results@).1 <= results@.len(),
            final(self)@ == old(self)@.applied_all(
                results@.subrange(0, old(self)@.resolve_run(outcome_hash@, results@).1 as int),
            ),
            final(self).cur_block.depth() == old(self).cur_block.depth() + old(self)@.resolve_run(
                outcome_hash@,
                results@,
            ).1,
            final(self).cur_block.block_height == old(self).cur_block.block_height + old(
                self
            )@.resolve_run(outcome_hash@, results@).1,
            final(self).cur_block.first() == old(self).cur_block.first(),
    {
        let ghost all = results@;
        let ghost step = self.genesis.block_prod_time;
        let ghost run = self@.resolve_run(outcome_hash@, all);
        let mut rest = backwards(results);
        let mut key = outcome_hash;
        let mut made: usize = 0;
        let total = rest.len();
        proof {
            assert(all.skip(0) =~= all);
            assert(all.subrange(0, 0) =~= Seq::<ApplyResult>::empty());
        }
        while made < total
            invariant
                self.wf(),
                self.genesis == old(self).genesis,
                self.protocol_version == old(self).protocol_version,
                step == self.genesis.block_prod_time,
                all == results@,
                run == old(self)@.resolve_run(outcome_hash@, all),
                total == all.len(),
                made <= total,
                rest@.len() == total - made,
                forall|i: int| 0 <= i < rest@.len() ==> #[trigger] rest@[i] == all[total - 1 - i],
                run.0 == self@.resolve_run(key@, all.skip(made as int)).0,
                run.1 == self@.resolve_run(key@, all.skip(made as int)).1 + made,
                self@ == old(self)@.applied_all(all.subrange(0, made as int)),
                self.cur_block.depth() == old(self).cur_block.depth() + made,
                self.cur_block.block_height == old(self).cur_block.block_height + made,
                self.cur_block.block_timestamp == old(self).cur_block.block_timestamp + made * step,
                self.cur_block.first() == old(self).cur_block.first(),
                old(self).cur_block.block_height + run.1 <= u64::MAX,
                old(self).cur_block.block_timestamp + run.1 * step <= u64::MAX,
            decreases total - made,
        {
            let ghost ahead = all.skip(made as int);
            match rest.pop() {
                None => {},
                Some(result) => {
                    proof {
                        assert(ahead[0] == result);
                        assert(ahead.drop_first() =~= all.skip(made + 1));
                        assert(run.1 >= made + 1);
                        assert(made * step + step == (made + 1) * step) by (nonlinear_arith);
                        assert((made + 1) * step <= run.1 * step) by (nonlinear_arith)
                            requires
                                made + 1 <= run.1,
                                step >= 0,
                        ;
                        let upto = all.subrange(0, made + 1);
                        assert(upto.drop_last() =~= all.subrange(0, made as int));
                        assert(upto.last() == result);
                    }
                    let _ = self.produce_block(Ok(result));
                    made = made + 1;
                    match self.resolve_step(&key) {
                        Resolution::Pending(id) => {
                            key = id;
                        },
                        end => {
                            return end;
                        },
                    }
                },
            }
        }
        proof {
            assert(all.skip(made as int) =~= Seq::<ApplyResult>::empty());
            assert(all.subrange(0, made as int) =~= all);
        }
        Resolution::Pending(key)
    }

    /// Closes a run of blocks with the engine's answers, one block for each
    /// answer, up to the first error of the engine. That error is returned,
    /// and the blocks before it stay. After `n` blocks the current block is
    /// `n` higher and lies in the epoch that its height gives.
    pub fn produce_blocks(&mut self, answers: Vec<Result<ApplyResult, RuntimeError>>) -> (r: Result<
        (),
        RuntimeError,
    >)
        requires
            old(self).wf(),
            old(self).cur_block.block_height + blocks_made(answers@) <= u64::MAX,
            old(self).cur_block.block_timestamp + blocks_made(answers@) * old(self).genesis.block_prod_time
                <= u64::MAX,
        ensures
            final(self).wf(),
            final(self).genesis == old(self).genesis,
            final(self).protocol_version == old(self).protocol_version,
            final(self)@ == old(self)@.applied_all(successes(answers@)),
            final(self).cur_block.depth() == old(self).cur_block.depth() + blocks_made(answers@),
            final(self).cur_block.block_height == old(self).cur_block.block_height + blocks_made(answers@),
            final(self).cur_block.epoch_height == epoch_of(
                old(self).cur_block.block_height + blocks_made(answers@),
                old(self).genesis.epoch_length as int,
            ),
            final(self).cur_block.block_timestamp == old(self).cur_block.block_timestamp + blocks_made(
                answers@,
            ) * old(self).genesis.block_prod_time,
            final(self).cur_block.first() == old(self).cur_block.first(),
            blocks_made(answers@) == answers@.len() ==> r is Ok,
            blocks_made(answers@) < answers@.len() ==> r == Err::<(), RuntimeError>(
                answers@[blocks_made(answers@) as int]->Err_0,
            ),
    {
        let ghost all = answers@;
        let ghost step = self.genesis.block_prod_time;
        let mut rest = backwards(answers);
        let mut made: usize = 0;
        let total = rest.len();
        while made < total
            invariant
                self.wf(),
                self.genesis == old(self).genesis,
                self.protocol_version == old(self).protocol_version,
                step == self.genesis.block_prod_time,
                all == answers@,
                total == all.len(),
                made <= total,
                rest@.len() == total - made,
                forall|i: int| 0 <= i < rest@.len() ==> #[trigger] rest@[i] == all[total - 1 - i],
                forall|i: int| 0 <= i < made ==> (#[trigger] all[i]) is Ok,
                self@ == old(self)@.applied_all(Seq::new(made as nat, |i: int| all[i]->Ok_0)),
                self.cur_block.depth() == old(self).cur_block.depth() + made,
                self.cur_block.block_height == old(self).cur_block.block_height + made,
                self.cur_block.block_timestamp == old(self).cur_block.block_timestamp + made * step,
                self.cur_block.first() == old(self).cur_block.first(),
                old(self).cur_block.block_height + blocks_made(all) <= u64::MAX,
                old(self).cur_block.block_timestamp + blocks_made(all) * step <= u64::MAX,
            decreases total - made,
        {
            let answer = rest.pop();
            match answer {
                None => {},
                Some(Ok(result)) => {
                    proof {
                        lemma_blocks_made_at_least(all, made + 1);
                        assert(made * step + step == (made + 1) * step) by (nonlinear_arith);
                        assert((made + 1) * step <= blocks_made(all) * step) by (nonlinear_arith)
                            requires
                                made + 1 <= blocks_made(all),
                                step >= 0,
                        ;
                    }
                    let _ = self.produce_block(Ok(result));
                    proof {
                        let upto = Seq::new((made + 1) as nat, |i: int| all[i]->Ok_0);
                        assert(upto.drop_last() =~= Seq::new(made as nat, |i: int| all[i]->Ok_0));
                        assert(upto.last() == result);
                    }
                    made = made + 1;
                },
                Some(Err(error)) => {
                    proof {
                        lemma_blocks_made(all, made as int);
                    }
                    return Err(error);
                },
            }
        }
        proof {
            lemma_blocks_made(all, made as int);
        }
        Ok(())
    }

    /// Puts `new_state_root` in the place of the current block's state root,
    /// as after a write to the state that no transaction made. The height,
    /// the history and the books stay as they are.
    pub fn force_account_update(&mut self, new_state_root: CryptoHash)
        requires
            old(self).wf(),
        ensures
            final(self).wf(),
            final(self).cur_block == (Block { state_root: new_state_root, ..old(self).cur_block }),
            final(self)@ == old(self)@,
            final(self).genesis == old(self).genesis,
            final(self).protocol_version == old(self).protocol_version,
    {
        self.cur_block.state_root = new_state_root;
        assert(self@ == old(self)@);
    }

    /// What the engine is told of the block against which a view call runs:
    /// the current block, and the state root of the block before it. The
    /// genesis block has no block before it; there the all-zero hash stands
    /// in.
    pub fn view_state(&self) -> (r: ViewApplyState)
        ensures
            r.block_height == self.cur_block.block_height,
            match self.cur_block.prev_block {
                Some(prev) => r.prev_block_hash == prev.state_root,
                None => r.prev_block_hash@ == zero_hash(),
            },
            r.epoch_height == self.cur_block.epoch_height,
            r.block_timestamp == self.cur_block.block_timestamp,
            r.current_protocol_version == self.protocol_version,
            r.block_hash == self.cur_block.state_root,
    {
        let prev_block_hash = match &self.cur_block.prev_block {
            Some(prev) => prev.state_root,
            None => CryptoHash::default(),
        };
        ViewApplyState {
            block_height: self.cur_block.block_height,
            prev_block_hash,
            epoch_height: self.cur_block.epoch_height,
            block_timestamp: self.cur_block.block_timestamp,
            current_protocol_version: self.protocol_version,
            block_hash: self.cur_block.state_root,
        }
    }

    /// The current block.
    pub fn current_block(&self) -> (r: &Block)
        ensures
            *r == self.cur_block,
    {
        &self.cur_block
    }

    /// The receipts that the last block left for the next one.
    pub fn pending_receipts(&self) -> (r: &[Receipt])
        ensures
            r@ == self@.pending_receipts,
    {
        self.pending_receipts.as_slice()
    }
}

/// Entering outcomes changes neither the transactions nor the pending
/// receipts.
pub proof fn lemma_recorded_keeps(ledger: Ledger, outcomes: Seq<ExecutionOutcomeWithId>)
    ensures
        ledger.recorded(outcomes).transactions == ledger.transactions,
        ledger.recorded(outcomes).pending_receipts == ledger.pending_receipts,
    decreases outcomes.len(),
{
    if outcomes.len() > 0 {
        lemma_recorded_keeps(ledger, outcomes.drop_last());
    }
}

/// What entering outcomes makes of the outcomes, the profiles and the list
/// of last outcomes does not depend on the pending receipts.
proof fn lemma_recorded_same(a: Ledger, b: Ledger, outcomes: Seq<ExecutionOutcomeWithId>)
    requires
        a.outcomes == b.outcomes,
        a.profile == b.profile,
        a.last_outcomes == b.last_outcomes,
    ensures
        a.recorded(outcomes).outcomes == b.recorded(outcomes).outcomes,
        a.recorded(outcomes).profile == b.recorded(outcomes).profile,
        a.recorded(outcomes).last_outcomes == b.recorded(outcomes).last_outcomes,
    decreases outcomes.len(),
{
    if outcomes.len() > 0 {
        lemma_recorded_same(a, b, outcomes.drop_last());
    }
}

/// Whether one of `outcomes` belongs to the id `key`.
pub open spec fn has_outcome_for(outcomes: Seq<ExecutionOutcomeWithId>, key: Seq<u8>) -> bool {
    exists|i: int| 0 <= i < outcomes.len() && (#[trigger] outcomes[i]).id@ == key
}

/// Every outcome that the engine returns goes into the books in the block
/// that produced it: afterwards the books hold an outcome for each id they
/// held before and for each id among the new outcomes, and for no other. An
/// id without a new outcome keeps the outcome it had. The list of last
/// outcomes grows by the new ids, in their order.
pub proof fn lemma_recorded_outcomes(ledger: Ledger, outcomes: Seq<ExecutionOutcomeWithId>)
    ensures
        forall|key: Seq<u8>| #[trigger]
            ledger.recorded(outcomes).outcomes.contains_key(key) <==> ledger.outcomes.contains_key(key)
                || has_outcome_for(outcomes, key),
        forall|key: Seq<u8>|
            ledger.outcomes.contains_key(key) && !has_outcome_for(outcomes, key) ==> #[trigger] ledger.recorded(
                outcomes,
            ).outcomes[key] == ledger.outcomes[key],
        ledger.recorded(outcomes).last_outcomes == ledger.last_outcomes + Seq::new(
            outcomes.len(),
            |i: int| outcomes[i].id@,
        ),
    decreases outcomes.len(),
{
    let ids = Seq::new(outcomes.len(), |i: int| outcomes[i].id@);
    if outcomes.len() == 0 {
        assert(ledger.last_outcomes + ids =~= ledger.last_outcomes);
    } else {
        let front = outcomes.drop_last();
        let last = outcomes.last();
        lemma_recorded_outcomes(ledger, front);
        let front_ids = Seq::new(front.len(), |i: int| front[i].id@);
        assert(ledger.last_outcomes + ids =~= (ledger.last_outcomes + front_ids).push(last.id@));
        assert forall|key: Seq<u8>| has_outcome_for(outcomes, key) <==> has_outcome_for(front, key) || key
            == last.id@ by {
            if has_outcome_for(outcomes, key) {
                let i = choose|i: int| 0 <= i < outcomes.len() && (#[trigger] outcomes[i]).id@ == key;
                if i < front.len() {
                    assert(front[i].id@ == key);
                }
            }
            if has_outcome_for(front, key) {
                let i = choose|i: int| 0 <= i < front.len() && (#[trigger] front[i]).id@ == key;
                assert(outcomes[i].id@ == key);
            }
            if key == last.id@ {
                assert(outcomes[outcomes.len() - 1].id@ == key);
            }
        }
    }
}

/// A block that settles an id leaves the settling outcome in the books under
/// that id.
pub proof fn lemma_settled_outcome(
    ledger: Ledger,
    result: ApplyResult,
    key: Seq<u8>,
    outcome: ExecutionOutcomeView,
)
    requires
        settles(result, key, outcome),
    ensures
        ledger.applied(result).outcomes.contains_key(key),
        ledger.applied(result).outcomes[key] == outcome,
{
    let i = choose|i: int|
        {
            &&& 0 <= i < result.outcomes@.len()
            &&& (#[trigger] result.outcomes@[i]).id@ == key
            &&& result.outcomes@[i].outcome@ == outcome
            &&& forall|j: int| i < j < result.outcomes@.len() ==> (#[trigger] result.outcomes@[j]).id@ != key
        };
    lemma_recorded_last(ledger, result.outcomes@, i);
}

/// The books hold under an id the last outcome that was entered for it.
proof fn lemma_recorded_last(ledger: Ledger, outcomes: Seq<ExecutionOutcomeWithId>, i: int)
    requires
        0 <= i < outcomes.len(),
        forall|j: int| i < j < outcomes.len() ==> (#[trigger] outcomes[j]).id@ != outcomes[i].id@,
    ensures
        ledger.recorded(outcomes).outcomes.contains_key(outcomes[i].id@),
        ledger.recorded(outcomes).outcomes[outcomes[i].id@] == outcomes[i].outcome@,
    decreases outcomes.len(),
{
    if i < outcomes.len() - 1 {
        let front = outcomes.drop_last();
        assert(front[i] == outcomes[i]);
        assert forall|j: int| i < j < front.len() implies (#[trigger] front[j]).id@ != front[i].id@ by {
            assert(front[j] == outcomes[j]);
        }
        lemma_recorded_last(ledger, front, i);
        assert(outcomes[outcomes.len() - 1].id@ != outcomes[i].id@);
    }
}

/// `resolve_tx` comes to an end. Let the work that a transaction causes be a
/// chain of ids, the hash of the transaction first and then one receipt after
/// the other, and let the engine settle one id of the chain in each block:
/// every id but the last with an outcome that continues in the next id, the
/// last with a value or a failure. Then `resolve_tx` ends after as many
/// blocks as the chain has ids, with the last id and its outcome.
pub proof fn lemma_resolve_terminates(
    ledger: Ledger,
    chain: Seq<Seq<u8>>,
    links: Seq<ExecutionOutcomeView>,
    results: Seq<ApplyResult>,
)
    requires
        chain.len() >= 1,
        links.len() == chain.len(),
        results.len() >= chain.len(),
        forall|i: int| 0 <= i < chain.len() ==> settles(#[trigger] results[i], chain[i], links[i]),
        forall|i: int|
            0 <= i < chain.len() - 1 ==> (#[trigger] links[i]).status == ExecutionStatusView::SuccessReceiptId(
                chain[i + 1],
            ),
        links.last().status.is_terminal(),
    ensures
        ledger.resolve_run(chain[0], results) == (
            ResolutionView::Done(chain.last(), links.last()),
            chain.len(),
        ),
    decreases chain.len(),
{
    let next = ledger.applied(results[0]);
    assert(settles(results[0], chain[0], links[0]));
    lemma_settled_outcome(ledger, results[0], chain[0], links[0]);
    if chain.len() == 1 {
        assert(links.last() == links[0]);
    } else {
        assert(links[0].status == ExecutionStatusView::SuccessReceiptId(chain[1]));
        let chain1 = chain.drop_first();
        let links1 = links.drop_first();
        let results1 = results.drop_first();
        assert forall|i: int| 0 <= i < chain1.len() implies settles(
            #[trigger] results1[i],
            chain1[i],
            links1[i],
        ) by {
            assert(settles(results[i + 1], chain[i + 1], links[i + 1]));
        }
        assert forall|i: int| 0 <= i < chain1.len() - 1 implies (#[trigger] links1[i]).status
            == ExecutionStatusView::SuccessReceiptId(chain1[i + 1]) by {
            assert(links[i + 1].status == ExecutionStatusView::SuccessReceiptId(chain[i + 2]));
        }
        assert(links1.last() == links.last());
        assert(chain1.last() == chain.last());
        lemma_resolve_terminates(next, chain1, links1, results1);
    }
}

} // verus!
