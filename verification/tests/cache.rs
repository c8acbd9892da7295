use near_sdk_sim::account::AccountId;
use near_sdk_sim::cache::{
    create_cache, CompilationError, CompiledContract, ContractCache, Lookup, PrepareError,
};

fn code(bytes: &[u8]) -> CompiledContract {
    CompiledContract::Code(bytes.to_vec())
}

#[test]
fn new_cache_is_empty() {
    let cache = ContractCache::new();
    assert_eq!(cache.get(&[1, 2, 3]), None);
    assert_eq!(cache.get(&[]), None);
    assert!(!cache.contains_key(&[1, 2, 3]));
    let cache = create_cache();
    assert_eq!(cache.get(&[1, 2, 3]), None);
}

#[test]
fn insert_then_get_returns_the_value() {
    let mut cache = create_cache();
    assert_eq!(cache.insert(&[1, 2, 3], &code(&[10, 20])), None);
    assert_eq!(cache.get(&[1, 2, 3]), Some(code(&[10, 20])));
    assert!(cache.contains_key(&[1, 2, 3]));
    assert_eq!(cache.get(&[1, 2]), None);
    assert_eq!(cache.get(&[1, 2, 3, 4]), None);
    assert_eq!(cache.get(&[3, 2, 1]), None);
}

#[test]
fn insert_returns_the_value_it_replaces() {
    let mut cache = create_cache();
    assert_eq!(cache.insert(&[7; 32], &code(&[1])), None);
    assert_eq!(cache.insert(&[8; 32], &code(&[2])), None);
    assert_eq!(cache.insert(&[7; 32], &code(&[3])), Some(code(&[1])));
    assert_eq!(cache.get(&[7; 32]), Some(code(&[3])));
    assert_eq!(cache.get(&[8; 32]), Some(code(&[2])));
    assert_eq!(cache.insert(&[8; 32], &code(&[])), Some(code(&[2])));
    assert_eq!(cache.get(&[8; 32]), Some(code(&[])));
    assert_eq!(cache.get(&[7; 32]), Some(code(&[3])));
}

#[test]
fn empty_key_is_a_key() {
    let mut cache = create_cache();
    assert_eq!(cache.insert(&[], &code(&[5])), None);
    assert_eq!(cache.get(&[]), Some(code(&[5])));
    assert_eq!(cache.get(&[0]), None);
}

#[test]
fn compile_errors_are_kept_too() {
    let mut cache = create_cache();
    let missing = CompiledContract::CompileModuleError(CompilationError::CodeDoesNotExist {
        account_id: AccountId::new_unchecked("alice".to_string()),
    });
    let prepare =
        CompiledContract::CompileModuleError(CompilationError::PrepareError(PrepareError::Memory));
    let wasmer = CompiledContract::CompileModuleError(CompilationError::WasmerCompileError {
        msg: "bad module".to_string(),
    });
    let unsupported = CompiledContract::CompileModuleError(CompilationError::UnsupportedCompiler {
        msg: "none".to_string(),
    });
    cache.insert(&[1], &missing);
    cache.insert(&[2], &prepare);
    cache.insert(&[3], &wasmer);
    cache.insert(&[4], &unsupported);
    assert_eq!(cache.get(&[1]), Some(missing));
    assert_eq!(cache.get(&[2]), Some(prepare));
    assert_eq!(cache.get(&[3]), Some(wasmer));
    assert_eq!(cache.get(&[4]), Some(unsupported));
}

#[test]
fn file_name_is_the_base58_text_of_the_key() {
    assert_eq!(ContractCache::file_name(b""), "");
    assert_eq!(ContractCache::file_name(b"a"), "2g");
    assert_eq!(ContractCache::file_name(b"bbb"), "a3gV");
    assert_eq!(ContractCache::file_name(b"hello world"), "StV1DL6CwTryKyV");
    assert_eq!(ContractCache::file_name(&[0x51, 0x6b, 0x6f, 0xcd, 0x0f]), "ABnLTmg");
    assert_eq!(ContractCache::file_name(&[0; 10]), "1111111111");
    assert_eq!(ContractCache::file_name(&[0; 32]), "11111111111111111111111111111111");
    assert_eq!(ContractCache::file_name(&[7; 32]), bs58::encode([7u8; 32]).into_string());
}

#[test]
fn file_is_replaced_where_it_holds_something_else() {
    assert!(ContractCache::needs_write(&[], &[1, 2, 3]));
    assert!(ContractCache::needs_write(&[1, 2], &[1, 2, 3]));
    assert!(ContractCache::needs_write(&[1, 2, 3, 4], &[1, 2, 3]));
    assert!(ContractCache::needs_write(&[1, 2, 4], &[1, 2, 3]));
    assert!(ContractCache::needs_write(&[3, 2, 1], &[1, 2, 3]));
    assert!(ContractCache::needs_write(&[1], &[]));
    assert!(!ContractCache::needs_write(&[1, 2, 3], &[1, 2, 3]));
    assert!(!ContractCache::needs_write(&[], &[]));
}

// A cache directory in memory: the bytes of each file, by its name.
type Directory = std::collections::BTreeMap<String, Vec<u8>>;

fn serialize(value: &CompiledContract) -> Vec<u8> {
    match value {
        CompiledContract::Code(code) => {
            let mut bytes = vec![1u8];
            bytes.extend_from_slice(&(code.len() as u32).to_le_bytes());
            bytes.extend_from_slice(code);
            bytes
        }
        CompiledContract::CompileModuleError(_) => vec![0u8],
    }
}

fn deserialize(bytes: &[u8]) -> Option<CompiledContract> {
    if bytes.len() < 5 || bytes[0] != 1 {
        return None;
    }
    let len = u32::from_le_bytes([bytes[1], bytes[2], bytes[3], bytes[4]]) as usize;
    if bytes.len() != 5 + len {
        return None;
    }
    Some(CompiledContract::Code(bytes[5..].to_vec()))
}

// The two steps of `put`, with the directory in memory in the place of the
// files.
fn put(cache: &mut ContractCache, disk: &mut Directory, key: &[u8], value: CompiledContract) {
    let name = cache.begin_put(key, &value);
    let file = disk.entry(name).or_default();
    let serialized = serialize(&value);
    if ContractCache::needs_write(file, &serialized) {
        *file = serialized;
    }
}

// The two steps of `get_persistent`, with the directory in memory in the
// place of the files.
fn get_persistent(
    cache: &mut ContractCache,
    disk: &Directory,
    key: &[u8],
) -> Result<Option<CompiledContract>, ()> {
    match cache.begin_get(key) {
        Lookup::Cached(value) => Ok(Some(value)),
        Lookup::ReadFile(name) => cache.finish_get(key, disk.get(&name).map(|bytes| deserialize(bytes))),
    }
}

#[test]
fn put_is_read_back_by_a_fresh_cache() {
    let mut disk = Directory::new();
    let mut cache = create_cache();
    put(&mut cache, &mut disk, &[1; 32], code(&[10, 20, 30]));
    put(&mut cache, &mut disk, &[2; 32], code(&[]));
    assert_eq!(get_persistent(&mut cache, &disk, &[1; 32]), Ok(Some(code(&[10, 20, 30]))));
    assert_eq!(disk.get(&ContractCache::file_name(&[1; 32])), Some(&serialize(&code(&[10, 20, 30]))));

    let mut fresh = create_cache();
    assert_eq!(fresh.get(&[1; 32]), None);
    assert_eq!(get_persistent(&mut fresh, &disk, &[1; 32]), Ok(Some(code(&[10, 20, 30]))));
    assert_eq!(fresh.get(&[1; 32]), Some(code(&[10, 20, 30])));
    assert_eq!(get_persistent(&mut fresh, &disk, &[2; 32]), Ok(Some(code(&[]))));
    assert_eq!(get_persistent(&mut fresh, &disk, &[3; 32]), Ok(None));
    assert_eq!(fresh.get(&[3; 32]), None);
    assert_eq!(disk.len(), 2);
}

#[test]
fn longer_value_replaces_a_shorter_file() {
    let mut disk = Directory::new();
    let mut cache = create_cache();
    put(&mut cache, &mut disk, &[1; 32], code(&[1]));
    put(&mut cache, &mut disk, &[1; 32], code(&[2, 3, 4]));
    let mut fresh = create_cache();
    assert_eq!(get_persistent(&mut fresh, &disk, &[1; 32]), Ok(Some(code(&[2, 3, 4]))));
}

#[test]
fn value_of_the_same_length_replaces_the_file() {
    let mut disk = Directory::new();
    let mut cache = create_cache();
    put(&mut cache, &mut disk, &[1; 32], code(&[1, 2, 3]));
    put(&mut cache, &mut disk, &[1; 32], code(&[4, 5, 6]));
    assert_eq!(get_persistent(&mut cache, &disk, &[1; 32]), Ok(Some(code(&[4, 5, 6]))));
    let mut fresh = create_cache();
    assert_eq!(get_persistent(&mut fresh, &disk, &[1; 32]), Ok(Some(code(&[4, 5, 6]))));
    assert_eq!(disk.get(&ContractCache::file_name(&[1; 32])), Some(&serialize(&code(&[4, 5, 6]))));
}

#[test]
fn shorter_value_replaces_a_longer_file() {
    let mut disk = Directory::new();
    let mut cache = create_cache();
    put(&mut cache, &mut disk, &[1; 32], code(&[1, 2, 3]));
    put(&mut cache, &mut disk, &[1; 32], code(&[9]));
    let mut fresh = create_cache();
    assert_eq!(get_persistent(&mut fresh, &disk, &[1; 32]), Ok(Some(code(&[9]))));
    assert_eq!(disk.get(&ContractCache::file_name(&[1; 32])), Some(&serialize(&code(&[9]))));
}

#[test]
fn file_that_does_not_deserialize_is_an_error() {
    let mut disk = Directory::new();
    disk.insert(ContractCache::file_name(&[1; 32]), vec![9, 9]);
    let mut fresh = create_cache();
    assert_eq!(get_persistent(&mut fresh, &disk, &[1; 32]), Err(()));
    assert_eq!(fresh.get(&[1; 32]), None);
    assert_eq!(disk.get(&ContractCache::file_name(&[1; 32])), Some(&vec![9, 9]));
    put(&mut fresh, &mut disk, &[1; 32], code(&[7]));
    assert_eq!(get_persistent(&mut create_cache(), &disk, &[1; 32]), Ok(Some(code(&[7]))));
}

#[test]
fn finish_get_decides_by_what_the_file_gave() {
    let mut cache = create_cache();
    cache.insert(&[5], &code(&[5]));
    assert_eq!(cache.finish_get(&[1], None), Ok(None));
    assert_eq!(cache.get(&[1]), None);
    assert_eq!(cache.finish_get(&[1], Some(None)), Err(()));
    assert_eq!(cache.get(&[1]), None);
    assert_eq!(cache.finish_get(&[1], Some(Some(code(&[1, 2])))), Ok(Some(code(&[1, 2]))));
    assert_eq!(cache.get(&[1]), Some(code(&[1, 2])));
    assert_eq!(cache.get(&[5]), Some(code(&[5])));
}

#[test]
fn memory_is_asked_before_the_file() {
    let mut cache = create_cache();
    assert_eq!(cache.begin_get(b"hello world"), Lookup::ReadFile("StV1DL6CwTryKyV".to_string()));
    assert_eq!(cache.begin_put(b"hello world", &code(&[1, 2])), "StV1DL6CwTryKyV");
    assert_eq!(cache.begin_get(b"hello world"), Lookup::Cached(code(&[1, 2])));
    assert_eq!(cache.get(b"hello world"), Some(code(&[1, 2])));
    assert_eq!(cache.begin_get(b"a"), Lookup::ReadFile("2g".to_string()));
}
