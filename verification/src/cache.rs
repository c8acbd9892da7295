//! The cache of compiled contracts: its memory tier, and what its directory
//! on disk is asked to hold.

use vstd::prelude::*;
use crate::account::AccountId;
use crate::bytemap::{bytes_equal, ByteMap};

verus! {

/// Why the preparation of a contract's code failed.
#[derive(Clone, Copy, Debug, PartialEq, Eq)]
pub enum PrepareError {
    Serialization,
    Deserialization,
    InternalMemoryDeclared,
    GasInstrumentation,
    StackHeightInstrumentation,
    Instantiate,
    Memory,
}

/// Why a contract could not be compiled.
#[derive(Debug, PartialEq, Eq)]
pub enum CompilationError {
    CodeDoesNotExist { account_id: AccountId },
    PrepareError(PrepareError),
    WasmerCompileError { msg: String },
    UnsupportedCompiler { msg: String },
}

/// What a `CompilationError` is in contracts.
pub enum CompilationErrorView {
    CodeDoesNotExist { account_id: Seq<char> },
    PrepareError(PrepareError),
    WasmerCompileError { msg: Seq<char> },
    UnsupportedCompiler { msg: Seq<char> },
}

impl View for CompilationError {
    type V = CompilationErrorView;

    open spec fn view(&self) -> CompilationErrorView {
        match *self {
            CompilationError::CodeDoesNotExist { account_id } => CompilationErrorView::CodeDoesNotExist {
                account_id: account_id@,
            },
            CompilationError::PrepareError(error) => CompilationErrorView::PrepareError(error),
            CompilationError::WasmerCompileError { msg } => CompilationErrorView::WasmerCompileError {
                msg: msg@,
            },
            CompilationError::UnsupportedCompiler { msg } => CompilationErrorView::UnsupportedCompiler {
                msg: msg@,
            },
        }
    }
}

impl Clone for CompilationError {
    fn clone(&self) -> (r: Self)
        ensures
            r@ == self@,
    {
        match self {
            CompilationError::CodeDoesNotExist { account_id } => CompilationError::CodeDoesNotExist {
                account_id: account_id.clone(),
            },
            CompilationError::PrepareError(error) => CompilationError::PrepareError(*error),
            CompilationError::WasmerCompileError { msg } => CompilationError::WasmerCompileError {
                msg: msg.clone(),
            },
            CompilationError::UnsupportedCompiler { msg } => CompilationError::UnsupportedCompiler {
                msg: msg.clone(),
            },
        }
    }
}

/// What the cache keeps for a contract: its compiled code, or the error
/// with which compiling it failed.
#[derive(Debug, PartialEq, Eq)]
pub enum CompiledContract {
    CompileModuleError(CompilationError),
    Code(Vec<u8>),
}

/// What a `CompiledContract` is in contracts.
pub enum CompiledContractView {
    CompileModuleError(CompilationErrorView),
    Code(Seq<u8>),
}

impl View for CompiledContract {
    type V = CompiledContractView;

    open spec fn view(&self) -> CompiledContractView {
        match *self {
            CompiledContract::CompileModuleError(error) => CompiledContractView::CompileModuleError(error@),
            CompiledContract::Code(code) => CompiledContractView::Code(code@),
        }
    }
}

impl Clone for CompiledContract {
    fn clone(&self) -> (r: Self)
        ensures
            r@ == self@,
    {
        match self {
            CompiledContract::CompileModuleError(error) => CompiledContract::CompileModuleError(
                error.clone(),
            ),
            CompiledContract::Code(code) => CompiledContract::Code(code.clone()),
        }
    }
}

/// The text that `bs58` encodes a byte string to, in its default alphabet.
pub uninterp spec fn base58(bytes: Seq<u8>) -> Seq<char>;

/// Calls `bs58::encode` and `into_string`: the Base58 text of `key` in the
/// default alphabet, without a checksum. The text depends on the bytes
/// alone.
#[verifier::external_body]
pub(crate) fn key_to_b58(key: &[u8]) -> (r: String)
    ensures
        r@ == base58(key@),
{
    bs58::encode(key).into_string()
}

/// What `get_persistent` finds in memory, or where it has to look next.
#[derive(Debug, PartialEq, Eq)]
pub enum Lookup {
    /// Memory holds this value for the key.
    Cached(CompiledContract),
    /// Memory holds nothing for the key: the file of this name decides.
    ReadFile(String),
}

/// What a `Lookup` is in contracts.
pub enum LookupView {
    Cached(CompiledContractView),
    ReadFile(Seq<char>),
}

impl View for Lookup {
    type V = LookupView;

    open spec fn view(&self) -> LookupView {
        match *self {
            Lookup::Cached(value) => LookupView::Cached(value@),
            Lookup::ReadFile(name) => LookupView::ReadFile(name@),
        }
    }
}

/// Memory comes first: what it holds for a key is the answer, and only a
/// key that it does not hold is looked up in its file.
pub open spec fn lookup(memory: Map<Seq<u8>, CompiledContractView>, key: Seq<u8>) -> LookupView {
    if memory.contains_key(key) {
        LookupView::Cached(memory[key])
    } else {
        LookupView::ReadFile(base58(key))
    }
}

/// The memory tier of the cache of compiled contracts: a table from the
/// hash of a contract's code to what compiling it gave. One owner holds it;
/// callers that share it put it behind a lock.
pub struct ContractCache {
    pub data: ByteMap<CompiledContract>,
}

impl View for ContractCache {
    type V = Map<Seq<u8>, CompiledContractView>;

    open spec fn view(&self) -> Map<Seq<u8>, CompiledContractView> {
        self.data@.map_values(|value: CompiledContract| value@)
    }
}

impl Default for ContractCache {
    fn default() -> (r: Self)
        ensures
            r.wf(),
            r@ == Map::<Seq<u8>, CompiledContractView>::empty(),
    {
        ContractCache::new()
    }
}

impl ContractCache {
    /// The invariant of the cache: its table is in order.
    pub open spec fn wf(&self) -> bool {
        self.data.wf()
    }

    /// An empty cache.
    pub fn new() -> (r: Self)
        ensures
            r.wf(),
            r@ == Map::<Seq<u8>, CompiledContractView>::empty(),
    {
        let r = ContractCache { data: ByteMap::new() };
        assert(r@ =~= Map::<Seq<u8>, CompiledContractView>::empty());
        r
    }

    /// Keeps a copy of `value` under `key` and returns what was kept there
    /// before.
    pub fn insert(&mut self, key: &[u8], value: &CompiledContract) -> (r: Option<CompiledContract>)
        requires
            old(self).wf(),
        ensures
            final(self).wf(),
            final(self)@ == old(self)@.insert(key@, value@),
            match r {
                Some(previous) => old(self)@.contains_key(key@) && previous@ == old(self)@[key@],
                None => !old(self)@.contains_key(key@),
            },
    {
        let r = self.data.insert(key, value.clone());
        assert(final(self)@ =~= old(self)@.insert(key@, value@));
        r
    }

    /// A copy of what is kept under `key`.
    pub fn get(&self, key: &[u8]) -> (r: Option<CompiledContract>)
        requires
            self.wf(),
        ensures
            match r {
                Some(value) => self@.contains_key(key@) && value@ == self@[key@],
                None => !self@.contains_key(key@),
            },
    {
        match self.data.get(key) {
            Some(value) => Some(value.clone()),
            None => None,
        }
    }

    /// Whether anything is kept under `key`.
    pub fn contains_key(&self, key: &[u8]) -> (r: bool)
        requires
            self.wf(),
        ensures
            r == self@.contains_key(key@),
    {
        self.data.contains_key(key)
    }

    /// The name of the file that holds the entry of `key` in the cache
    /// directory: the Base58 text of the key.
    pub fn file_name(key: &[u8]) -> (r: String)
        ensures
            r@ == base58(key@),
    {
        key_to_b58(key)
    }

    /// The first step of `put`: keeps a copy of `value` in memory and
    /// returns the name of the file that is to hold it. The caller opens
    /// that file, creating it empty where it is missing, and asks
    /// `needs_write` whether to replace what it holds.
    pub fn begin_put(&mut self, key: &[u8], value: &CompiledContract) -> (file: String)
        requires
            old(self).wf(),
        ensures
            final(self).wf(),
            final(self)@ == old(self)@.insert(key@, value@),
            file@ == base58(key@),
    {
        self.insert(key, value);
        key_to_b58(key)
    }

    /// The second step of `put`: whether the file of the key, which holds
    /// `file`, is to be replaced by the serialized value.
    pub fn needs_write(file: &[u8], serialized: &[u8]) -> (r: bool)
        ensures
            r == write_needed(file@, serialized@),
    {
        !bytes_equal(file, serialized)
    }

    /// The first step of `get_persistent`: what memory holds for `key`, or
    /// else the name of the file that decides. The caller looks for that
    /// file and hands what it found to `finish_get`.
    pub fn begin_get(&self, key: &[u8]) -> (r: Lookup)
        requires
            self.wf(),
        ensures
            r@ == lookup(self@, key@),
    {
        match self.data.get(key) {
            Some(value) => Lookup::Cached(value.clone()),
            None => Lookup::ReadFile(key_to_b58(key)),
        }
    }

    /// The second step of `get_persistent`, for a key that memory does not
    /// hold. `file` is what the file of the key gave: nothing where there
    /// is no such file, else what its bytes deserialize to, if anything.
    /// No file means that nothing is kept for the key. A file that does not
    /// deserialize is an error, and memory stays as it is. A value is
    /// returned and kept in memory from then on.
    pub fn finish_get(&mut self, key: &[u8], file: Option<Option<CompiledContract>>) -> (r: Result<
        Option<CompiledContract>,
        (),
    >)
        requires
            old(self).wf(),
        ensures
            final(self).wf(),
            match file {
                None => r == Ok::<Option<CompiledContract>, ()>(None) && final(self)@ == old(self)@,
                Some(None) => r is Err && final(self)@ == old(self)@,
                Some(Some(value)) => r == Ok::<Option<CompiledContract>, ()>(Some(value)) && final(self)@
                    == old(self)@.insert(key@, value@),
            },
            (answer_view(r), final(self)@) == found(old(self)@, key@, file_view(file)),
    {
        match file {
            None => Ok(None),
            Some(None) => Err(()),
            Some(Some(value)) => {
                self.insert(key, &value);
                Ok(Some(value))
            },
        }
    }
}

/// `put` replaces what a file holds where that is not the serialized value
/// already.
pub open spec fn write_needed(file: Seq<u8>, serialized: Seq<u8>) -> bool {
    file != serialized
}

/// What a file gave, in contracts.
pub open spec fn file_view(file: Option<Option<CompiledContract>>) -> Option<Option<CompiledContractView>> {
    match file {
        None => None,
        Some(None) => Some(None),
        Some(Some(value)) => Some(Some(value@)),
    }
}

/// What `get_persistent` answers, in contracts.
pub open spec fn answer_view(answer: Result<Option<CompiledContract>, ()>) -> Result<
    Option<CompiledContractView>,
    (),
> {
    match answer {
        Ok(Some(value)) => Ok(Some(value@)),
        Ok(None) => Ok(None),
        Err(error) => Err(error),
    }
}

/// What `get_persistent` returns for a key that memory does not hold, and
/// the memory tier after it. `file` is what the file of the key gave:
/// nothing where there is no such file, else what its bytes deserialize to,
/// if anything.
pub open spec fn found(
    memory: Map<Seq<u8>, CompiledContractView>,
    key: Seq<u8>,
    file: Option<Option<CompiledContractView>>,
) -> (Result<Option<CompiledContractView>, ()>, Map<Seq<u8>, CompiledContractView>) {
    match file {
        None => (Ok(None), memory),
        Some(None) => (Err(()), memory),
        Some(Some(value)) => (Ok(Some(value)), memory.insert(key, value)),
    }
}

/// An empty cache.
pub fn create_cache() -> (r: ContractCache)
    ensures
        r.wf(),
        r@ == Map::<Seq<u8>, CompiledContractView>::empty(),
{
    ContractCache::new()
}

/// A cache directory as contracts see it: the bytes of each file, by the name
/// of the file.
pub type Directory = Map<Seq<char>, Seq<u8>>;

/// The two tiers of the cache as contracts see them.
pub struct Tiers {
    /// What the memory tier holds.
    pub memory: Map<Seq<u8>, CompiledContractView>,
    /// What the cache directory holds.
    pub disk: Directory,
}

/// What `put` leaves in the file of a key. The file is created empty where
/// it is missing, and what it holds is then replaced where `write_needed`
/// says so.
pub open spec fn file_after_put(file: Option<Seq<u8>>, serialized: Seq<u8>) -> Seq<u8> {
    let before = match file {
        Some(bytes) => bytes,
        None => Seq::empty(),
    };
    if write_needed(before, serialized) {
        serialized
    } else {
        before
    }
}

impl Tiers {
    /// The file of `key`, where the directory has one.
    pub open spec fn file(self, key: Seq<u8>) -> Option<Seq<u8>> {
        if self.disk.contains_key(base58(key)) {
            Some(self.disk[base58(key)])
        } else {
            None
        }
    }

    /// The tiers after `put`: the value is in memory, and the file of the
    /// key holds what `file_after_put` says. `serialized` is the value in
    /// its serialized form.
    pub open spec fn put(self, key: Seq<u8>, value: CompiledContractView, serialized: Seq<u8>) -> Tiers {
        Tiers {
            memory: self.memory.insert(key, value),
            disk: self.disk.insert(base58(key), file_after_put(self.file(key), serialized)),
        }
    }

    /// What `get_persistent` returns, and the memory tier after it. What is
    /// in memory is returned from there. Else the file of the key decides,
    /// as `found` says. `deserialize` is the reading of a serialized value,
    /// which fails on some bytes.
    pub open spec fn get_persistent(
        self,
        key: Seq<u8>,
        deserialize: spec_fn(Seq<u8>) -> Option<CompiledContractView>,
    ) -> (Result<Option<CompiledContractView>, ()>, Map<Seq<u8>, CompiledContractView>) {
        match lookup(self.memory, key) {
            LookupView::Cached(value) => (Ok(Some(value)), self.memory),
            LookupView::ReadFile(name) => found(
                self.memory,
                key,
                if self.disk.contains_key(name) {
                    Some(deserialize(self.disk[name]))
                } else {
                    None
                },
            ),
        }
    }
}

/// After `put`, the file of the key holds exactly the serialized value,
/// whatever it held before, and every other file is as it was.
pub proof fn lemma_put_writes_the_value(
    tiers: Tiers,
    key: Seq<u8>,
    value: CompiledContractView,
    serialized: Seq<u8>,
)
    ensures
        file_after_put(tiers.file(key), serialized) == serialized,
        tiers.put(key, value, serialized).file(key) == Some(serialized),
        forall|name: Seq<char>|
            name != base58(key) ==> (#[trigger] tiers.put(key, value, serialized).disk.contains_key(name)
                <==> tiers.disk.contains_key(name)),
        forall|name: Seq<char>|
            name != base58(key) && tiers.disk.contains_key(name) ==> #[trigger] tiers.put(
                key,
                value,
                serialized,
            ).disk[name] == tiers.disk[name],
{
}

/// What is put can be read back by a cache that starts empty on the same
/// directory, whatever the directory held before. Let deserializing undo
/// serializing for this value. Then after `put`, `get_persistent` with
/// nothing in memory returns the value that was put, and keeps it in memory.
pub proof fn lemma_put_then_get_persistent(
    tiers: Tiers,
    key: Seq<u8>,
    value: CompiledContractView,
    serialized: Seq<u8>,
    deserialize: spec_fn(Seq<u8>) -> Option<CompiledContractView>,
)
    requires
        deserialize(serialized) == Some(value),
    ensures
        (Tiers { memory: Map::empty(), disk: tiers.put(key, value, serialized).disk }).get_persistent(
            key,
            deserialize,
        ) == (
            Ok::<Option<CompiledContractView>, ()>(Some(value)),
            Map::<Seq<u8>, CompiledContractView>::empty().insert(key, value),
        ),
{
    lemma_put_writes_the_value(tiers, key, value, serialized);
}

/// What is in memory is read from memory: after `put`, `get_persistent`
/// returns the value that was put, whatever the directory holds.
pub proof fn lemma_put_then_get_in_memory(
    tiers: Tiers,
    key: Seq<u8>,
    value: CompiledContractView,
    serialized: Seq<u8>,
    deserialize: spec_fn(Seq<u8>) -> Option<CompiledContractView>,
)
    ensures
        tiers.put(key, value, serialized).get_persistent(key, deserialize) == (
            Ok::<Option<CompiledContractView>, ()>(Some(value)),
            tiers.put(key, value, serialized).memory,
        ),
{
}

} // verus!
