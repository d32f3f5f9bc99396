use veles_casper::address::increment;
use veles_casper::assoc::AssocList;
use veles_casper::codec::{encode_cl_value, encode_name, key_to_bytes, parse_uref, uref_to_bytes};
use veles_casper::env::{Env, EnvBuilder};
use veles_casper::error::ApiError;
use veles_casper::host::{
    casper_create_purse, casper_dictionary_get, casper_dictionary_put, casper_generic_hash,
    casper_get_key, casper_get_named_arg, casper_get_named_arg_size, casper_has_key,
    casper_load_caller_information, casper_new_dictionary, casper_new_uref, casper_put_key,
    casper_read_host_buffer, casper_read_value, casper_remove_key, casper_revert, casper_write,
    check_revert, clear_revert, Host,
};
use veles_casper::trace::HostFunction;
use veles_casper::types::{CLValue, Key, StoredValue, URef};
use veles_casper::utils::{
    dictionary_get_bytes, dictionary_put_clvalue, generic_hash, get_immediate_account, get_key,
    get_uref, has_key, new_dictionary_key, new_dictionary_uref, new_uref_key, print, put_key,
    read_host_buffer, read_key, remove_key, write_key, HashAlgorithm,
};

fn addr(n: u8) -> [u8; 32] {
    let mut a = [0u8; 32];
    a[0] = n;
    a
}

fn host_with(env: Env) -> Host {
    let mut host = Host::new();
    host.begin_dispatch(env);
    host
}

fn fresh_host() -> Host {
    host_with(EnvBuilder::new().build())
}

#[test]
fn read_of_an_absent_key_reports_absent() {
    let mut env = EnvBuilder::new().build();
    for key in [
        Key::Hash([0; 32]),
        Key::Account([1; 32]),
        Key::Balance([2; 32]),
        Key::SmartContract([3; 32]),
        Key::URef(URef::new([4; 32], 7).unwrap()),
    ] {
        assert!(env.peek(&key).is_none());
        assert_eq!(env.read_value(&key), Err(ApiError::ValueNotFound));
        assert!(!env.has_staged());
    }
    let mut host = fresh_host();
    assert_eq!(read_key(&mut host, &Key::Hash([9; 32])), Ok(None));
}

#[test]
fn write_then_read_returns_the_value() {
    let mut env = EnvBuilder::new().build();
    let key = Key::Hash([7; 32]);
    env.write(key, CLValue::from_u64(1234));
    assert_eq!(
        env.peek(&key),
        Some(&StoredValue::CLValue(CLValue::from_u64(1234)))
    );
    assert_eq!(env.read_value(&key), Ok(8));
    assert_eq!(env.read_host_buffer(8), Ok(1234u64.to_le_bytes().to_vec()));

    // a second write replaces the first
    env.write(key, CLValue::from_bool(true));
    assert_eq!(env.read_value(&key), Ok(1));
    assert_eq!(env.read_host_buffer(1), Ok(vec![1u8]));
    assert_eq!(
        env.trace(),
        vec![
            HostFunction::CasperWrite,
            HostFunction::CasperReadValue,
            HostFunction::CasperWrite,
            HostFunction::CasperReadValue,
        ]
    );
}

#[test]
fn write_then_read_through_the_boundary() {
    let mut host = fresh_host();
    let key = Key::Account([5; 32]);
    let value = CLValue::new(vec![10], vec![3, 0, 0, 0, b'a', b'b', b'c']).unwrap();
    assert_eq!(write_key(&mut host, &value, key), Ok(()));
    assert_eq!(
        read_key(&mut host, &key),
        Ok(Some(vec![3, 0, 0, 0, b'a', b'b', b'c']))
    );
    assert_eq!(
        host.trace(),
        vec![HostFunction::CasperWrite, HostFunction::CasperReadValue]
    );
}

#[test]
fn stage_then_drain_hands_out_the_bytes_once() {
    let mut env = EnvBuilder::new().build();
    assert_eq!(env.staged_len(), None);
    assert_eq!(env.read_host_buffer(0), Err(ApiError::HostBufferEmpty));

    env.stage(CLValue::from_u64(5));
    assert!(env.has_staged());
    assert_eq!(env.staged_len(), Some(8));
    assert_eq!(env.read_host_buffer(8), Ok(5u64.to_le_bytes().to_vec()));
    assert!(!env.has_staged());
    assert_eq!(env.read_host_buffer(8), Err(ApiError::HostBufferEmpty));

    let mut host = fresh_host();
    assert_eq!(
        casper_read_host_buffer(&mut host, 4),
        (ApiError::HostBufferEmpty.status(), Vec::new())
    );
    assert_eq!(read_host_buffer(&mut host, 4), Err(ApiError::HostBufferEmpty));
}

#[test]
fn next_address_counts_up_from_its_seed() {
    let mut env = EnvBuilder::new().build();
    let mut seen: Vec<[u8; 32]> = Vec::new();
    for n in 1..=300u32 {
        let next = env.next_address();
        let mut expected = [0u8; 32];
        expected[..4].copy_from_slice(&n.to_le_bytes());
        assert_eq!(next, expected);
        assert!(!seen.contains(&next));
        seen.push(next);
    }

    let mut seed = [0u8; 32];
    seed[0] = 0xff;
    seed[1] = 0xff;
    let mut env = EnvBuilder::new().with_address_generator(seed).build();
    let mut expected = [0u8; 32];
    expected[2] = 1;
    assert_eq!(env.next_address(), expected);
}

#[test]
fn increment_stops_at_the_greatest_number() {
    assert_eq!(increment(&[0u8; 32]), Some(addr(1)));
    let mut almost = [0xffu8; 32];
    almost[31] = 0xfe;
    let mut after = [0u8; 32];
    after[31] = 0xff;
    assert_eq!(increment(&almost), Some(after));
    assert_eq!(increment(&[0xffu8; 32]), None);
}

#[test]
fn named_key_table_of_the_host() {
    let mut host = fresh_host();
    let key = Key::Hash([1; 32]);
    assert_eq!(get_key(&mut host, "a"), Ok(None));
    assert!(!has_key(&mut host, "a"));
    assert_eq!(put_key(&mut host, "a", key), Ok(()));
    assert!(has_key(&mut host, "a"));
    assert_eq!(get_key(&mut host, "a"), Ok(Some(key)));
    assert_eq!(put_key(&mut host, "a", Key::Hash([2; 32])), Ok(()));
    assert_eq!(get_key(&mut host, "a"), Ok(Some(Key::Hash([2; 32]))));
    remove_key(&mut host, "a");
    assert_eq!(get_key(&mut host, "a"), Ok(None));
    assert_eq!(
        host.trace(),
        vec![
            HostFunction::CasperGetKey("a".into()),
            HostFunction::CasperHasKey("a".into()),
            HostFunction::CasperPutKey("a".into(), key),
            HostFunction::CasperHasKey("a".into()),
            HostFunction::CasperGetKey("a".into()),
            HostFunction::CasperPutKey("a".into(), Key::Hash([2; 32])),
            HostFunction::CasperGetKey("a".into()),
            HostFunction::CasperRemoveKey("a".into()),
            HostFunction::CasperGetKey("a".into()),
        ]
    );
    assert_eq!(host.trace(), vec![]);
}

#[test]
fn get_key_status_codes() {
    let key = Key::URef(URef::new([3; 32], 7).unwrap());
    let mut host = host_with(EnvBuilder::new().with_named_key("u", key).build());
    let name = encode_name("u");
    assert_eq!(
        casper_get_key(&mut host, &name, 64),
        (0, key_to_bytes(&key))
    );
    assert_eq!(casper_get_key(&mut host, &name, 34), (0, key_to_bytes(&key)));
    assert_eq!(casper_get_key(&mut host, &name, 33), (32, Vec::new()));
    assert_eq!(
        casper_get_key(&mut host, &encode_name("other"), 64),
        (24, Vec::new())
    );
    assert_eq!(casper_has_key(&mut host, &name), 0);
    assert_eq!(casper_has_key(&mut host, &encode_name("other")), 1);
    casper_put_key(&mut host, &encode_name("other"), &key_to_bytes(&Key::Hash([1; 32])));
    assert_eq!(casper_has_key(&mut host, &encode_name("other")), 0);
    casper_remove_key(&mut host, &name);
    assert_eq!(casper_has_key(&mut host, &name), 1);
}

#[test]
fn read_value_and_write_status_codes() {
    let mut host = fresh_host();
    let key = key_to_bytes(&Key::Hash([8; 32]));
    assert_eq!(casper_read_value(&mut host, &key), (6, 0));
    casper_write(&mut host, &key, &encode_cl_value(&CLValue::from_u64(9)));
    assert_eq!(casper_read_value(&mut host, &key), (0, 8));
    assert_eq!(
        casper_read_host_buffer(&mut host, 8),
        (0, 9u64.to_le_bytes().to_vec())
    );
}

#[test]
fn new_uref_stores_under_the_next_address() {
    let mut host = fresh_host();
    let bytes = casper_new_uref(&mut host, &encode_cl_value(&CLValue::from_u8(3)));
    let first = URef::new(addr(1), 7).unwrap();
    assert_eq!(bytes, uref_to_bytes(&first));
    assert_eq!(read_key(&mut host, &Key::URef(first)), Ok(Some(vec![3u8])));

    let second = new_uref_key(&mut host, &CLValue::from_u8(4));
    assert_eq!(second, Ok(Key::URef(URef::new(addr(2), 7).unwrap())));
    assert_eq!(read_key(&mut host, &second.unwrap()), Ok(Some(vec![4u8])));
}

#[test]
fn dictionary_put_needs_a_registered_seed() {
    let mut host = fresh_host();
    let stranger = URef::new([9; 32], 7).unwrap();
    assert_eq!(
        dictionary_put_clvalue(&mut host, &stranger, "k", CLValue::from_u64(42)),
        Err(ApiError::DictionaryNotFound)
    );
    assert_eq!(
        casper_dictionary_put(
            &mut host,
            &uref_to_bytes(&stranger),
            b"k",
            &encode_cl_value(&CLValue::from_u64(42))
        ),
        -1
    );
    let mut env = EnvBuilder::new().build();
    assert_eq!(
        env.dictionary_put(&[9; 32], "k".to_string(), CLValue::unit()),
        Err(ApiError::DictionaryNotFound)
    );
    assert_eq!(
        env.dictionary_get(&[9; 32], &"k".to_string()),
        Err(ApiError::DictionaryNotFound)
    );
}

#[test]
fn an_unregistered_seed_is_not_found_whatever_the_item_key() {
    let too_long = "k".repeat(129);
    let stranger = URef::new([9; 32], 7).unwrap();
    let mut env = EnvBuilder::new().build();
    assert_eq!(
        env.dictionary_put(&[9; 32], too_long.clone(), CLValue::unit()),
        Err(ApiError::DictionaryNotFound)
    );
    assert_eq!(
        env.dictionary_get(&[9; 32], &too_long),
        Err(ApiError::DictionaryNotFound)
    );
    assert!(env.can_dictionary_get(&[9; 32], &too_long));

    let mut host = fresh_host();
    assert_eq!(
        casper_dictionary_put(
            &mut host,
            &uref_to_bytes(&stranger),
            too_long.as_bytes(),
            &encode_cl_value(&CLValue::from_u64(42))
        ),
        -1
    );
    assert_eq!(
        casper_dictionary_get(&mut host, &uref_to_bytes(&stranger), too_long.as_bytes()),
        (-1, 0)
    );
    // a registered seed turns the long key down with its own status
    let seed = new_dictionary_uref(&mut host).unwrap();
    assert_eq!(
        casper_dictionary_get(&mut host, &uref_to_bytes(&seed), too_long.as_bytes()),
        (36, 0)
    );
    assert_eq!(
        casper_dictionary_put(
            &mut host,
            &uref_to_bytes(&seed),
            too_long.as_bytes(),
            &encode_cl_value(&CLValue::from_u64(42))
        ),
        36
    );
    assert_eq!(dictionary_get_bytes(&mut host, &seed, "k"), Ok(None));
}

#[test]
fn a_get_may_be_served_unless_it_would_stage_over_a_value() {
    let mut env = EnvBuilder::new().build();
    let seed = env.new_dictionary();
    assert_eq!(env.read_host_buffer(33).unwrap().len(), 33);
    let addr = seed.addr();
    env.dictionary_put(&addr, "k".to_string(), CLValue::from_u8(1)).unwrap();
    assert!(env.can_dictionary_get(&addr, &"k".to_string()));
    env.stage(CLValue::unit());
    assert!(!env.can_dictionary_get(&addr, &"k".to_string()));
    assert!(env.can_dictionary_get(&addr, &"absent".to_string()));
    assert!(env.can_dictionary_get(&[7; 32], &"k".to_string()));
    assert!(env.can_dictionary_get(&addr, &"k".repeat(129)));
    assert_eq!(env.dictionary_get(&addr, &"absent".to_string()), Err(ApiError::ValueNotFound));
    assert!(env.has_staged());
    assert!(env.can_mint());
}

#[test]
fn tables_hold_each_key_once() {
    let mut table: AssocList<String, Key> = AssocList::new();
    assert_eq!(table.len(), 0);
    table.insert("a".to_string(), Key::Hash([1; 32]));
    table.insert("b".to_string(), Key::Hash([2; 32]));
    table.insert("a".to_string(), Key::Hash([3; 32]));
    assert_eq!(table.len(), 2);
    assert_eq!(table.get(&"a".to_string()), Some(&Key::Hash([3; 32])));
    assert!(table.contains_key(&"b".to_string()));
    let copy = table.duplicate();
    assert_eq!(table.remove(&"a".to_string()), Some(Key::Hash([3; 32])));
    assert_eq!(table.remove(&"a".to_string()), None);
    assert_eq!(table.len(), 1);
    assert_eq!(table.get(&"a".to_string()), None);
    assert_eq!(copy.len(), 2);
    assert_eq!(copy.get(&"a".to_string()), Some(&Key::Hash([3; 32])));
}

#[test]
fn dictionary_scenario() {
    let mut host = fresh_host();
    let (status, size) = casper_new_dictionary(&mut host);
    assert_eq!((status, size), (0, 33));
    let (status, seed_bytes) = casper_read_host_buffer(&mut host, size);
    assert_eq!(status, 0);
    let seed = parse_uref(&seed_bytes).unwrap();
    assert_eq!(seed, URef::new(addr(1), 7).unwrap());

    assert_eq!(
        dictionary_put_clvalue(&mut host, &seed, "k", CLValue::from_u64(42)),
        Ok(())
    );
    assert_eq!(
        dictionary_get_bytes(&mut host, &seed, "k"),
        Ok(Some(42u64.to_le_bytes().to_vec()))
    );
    assert_eq!(dictionary_get_bytes(&mut host, &seed, "missing"), Ok(None));
    assert_eq!(check_revert(&host), None);

    assert_eq!(
        casper_dictionary_get(&mut host, &seed_bytes, b"missing"),
        (6, 0)
    );
    assert_eq!(casper_dictionary_get(&mut host, &seed_bytes, b"k"), (0, 8));
    assert_eq!(
        read_host_buffer(&mut host, 8),
        Ok(42u64.to_le_bytes().to_vec())
    );
    // the seed itself holds the unit value
    assert_eq!(read_key(&mut host, &Key::URef(seed)), Ok(Some(Vec::new())));
}

#[test]
fn new_dictionary_through_the_guest() {
    let mut host = fresh_host();
    let seed = new_dictionary_uref(&mut host).unwrap();
    assert_eq!(seed, URef::new(addr(1), 7).unwrap());
    let key = new_dictionary_key(&mut host).unwrap();
    assert_eq!(key, Key::URef(URef::new(addr(2), 7).unwrap()));
    assert_eq!(key.into_uref(), Some(URef::new(addr(2), 7).unwrap()));
    assert_eq!(Key::Hash([0; 32]).into_uref(), None);
}

#[test]
fn item_keys_are_bounded() {
    let mut host = fresh_host();
    let seed = new_dictionary_uref(&mut host).unwrap();
    let longest = "k".repeat(128);
    let too_long = "k".repeat(129);
    assert_eq!(
        dictionary_put_clvalue(&mut host, &seed, &longest, CLValue::from_u8(1)),
        Ok(())
    );
    assert_eq!(
        dictionary_get_bytes(&mut host, &seed, &longest),
        Ok(Some(vec![1u8]))
    );
    assert_eq!(check_revert(&host), None);
    assert_eq!(
        dictionary_put_clvalue(&mut host, &seed, &too_long, CLValue::from_u8(2)),
        Err(ApiError::DictionaryItemKeyExceedsLength)
    );
    assert_eq!(check_revert(&host).unwrap().status, 36);
    clear_revert(&mut host);
    assert_eq!(
        casper_dictionary_put(
            &mut host,
            &uref_to_bytes(&seed),
            too_long.as_bytes(),
            &encode_cl_value(&CLValue::from_u8(2))
        ),
        36
    );
    assert_eq!(
        dictionary_get_bytes(&mut host, &seed, &too_long),
        Err(ApiError::DictionaryItemKeyExceedsLength)
    );
    assert_eq!(check_revert(&host).unwrap().status, 36);
}

#[test]
fn get_of_an_unregistered_seed_reverts() {
    let mut host = fresh_host();
    let stranger = URef::new([9; 32], 7).unwrap();
    assert_eq!(
        dictionary_get_bytes(&mut host, &stranger, "k"),
        Err(ApiError::DictionaryNotFound)
    );
    assert_eq!(check_revert(&host).unwrap().status, u32::MAX);
}

#[test]
fn revert_leaves_its_diagnostic() {
    let mut host = fresh_host();
    assert_eq!(check_revert(&host), None);
    casper_revert(&mut host, 5);
    let diagnostic = check_revert(&host).unwrap();
    assert_eq!(diagnostic.status, 5);
    assert_eq!(diagnostic.reason, "ApiError::Read [5]");

    casper_revert(&mut host, 65536 + 7);
    let diagnostic = check_revert(&host).unwrap();
    assert_eq!(diagnostic.status, 65543);
    assert_eq!(diagnostic.reason, "ApiError::User(7) [65543]");

    clear_revert(&mut host);
    assert_eq!(check_revert(&host), None);

    casper_revert(&mut host, 1);
    host.begin_dispatch(EnvBuilder::new().build());
    assert_eq!(check_revert(&host), None);
}

#[test]
fn dispatch_nests() {
    let mut host = Host::new();
    assert_eq!(host.depth(), 0);
    assert!(host.end_dispatch().is_none());

    let outer = EnvBuilder::new()
        .with_named_key("outer", Key::Hash([1; 32]))
        .build();
    host.begin_dispatch(outer);
    assert_eq!(host.depth(), 1);
    assert!(has_key(&mut host, "outer"));

    let inner = EnvBuilder::new()
        .with_named_key("inner", Key::Hash([2; 32]))
        .build();
    host.begin_dispatch(inner);
    assert_eq!(host.depth(), 2);
    assert!(!has_key(&mut host, "outer"));
    assert!(has_key(&mut host, "inner"));
    put_key(&mut host, "made_inside", Key::Hash([3; 32])).unwrap();

    let mut inner = host.end_dispatch().unwrap();
    assert_eq!(host.depth(), 1);
    assert!(inner
        .named_keys()
        .contains_key(&"made_inside".to_string()));
    assert_eq!(inner.trace().len(), 3);

    assert!(has_key(&mut host, "outer"));
    assert!(!has_key(&mut host, "made_inside"));
    let mut outer = host.end_dispatch().unwrap();
    assert_eq!(host.depth(), 0);
    assert_eq!(
        outer.trace(),
        vec![
            HostFunction::CasperHasKey("outer".into()),
            HostFunction::CasperHasKey("outer".into()),
            HostFunction::CasperHasKey("made_inside".into()),
        ]
    );
}

#[test]
fn named_arguments() {
    let mut args: AssocList<String, CLValue> = AssocList::new();
    args.insert("amount".to_string(), CLValue::from_u64(100));
    let env = EnvBuilder::new()
        .with_args(args)
        .with_arg("flag", CLValue::from_bool(true))
        .build();
    let mut host = host_with(env);
    assert_eq!(casper_get_named_arg_size(&mut host, b"amount"), (0, 8));
    assert_eq!(casper_get_named_arg_size(&mut host, b"flag"), (0, 1));
    assert_eq!(casper_get_named_arg_size(&mut host, b"other"), (2, 0));
    assert_eq!(
        casper_get_named_arg(&mut host, b"amount", 8),
        (0, 100u64.to_le_bytes().to_vec())
    );
    assert_eq!(
        casper_get_named_arg(&mut host, b"amount", 16),
        (0, 100u64.to_le_bytes().to_vec())
    );
    assert_eq!(casper_get_named_arg(&mut host, b"amount", 7), (32, Vec::new()));
    assert_eq!(casper_get_named_arg(&mut host, b"other", 8), (2, Vec::new()));
    assert_eq!(
        host.trace(),
        vec![
            HostFunction::CasperGetNamedArgSize,
            HostFunction::CasperGetNamedArgSize,
            HostFunction::CasperGetNamedArgSize,
            HostFunction::CasperGetNamedArg,
            HostFunction::CasperGetNamedArg,
            HostFunction::CasperGetNamedArg,
            HostFunction::CasperGetNamedArg,
        ]
    );
}

#[test]
fn create_purse_makes_a_zero_balance() {
    let mut host = fresh_host();
    let (status, bytes) = casper_create_purse(&mut host, 33);
    assert_eq!(status, 0);
    let purse = parse_uref(&bytes).unwrap();
    assert_eq!(purse, URef::new(addr(1), 7).unwrap());
    assert_eq!(purse.addr(), addr(1));
    assert_eq!(purse.access_rights(), 7);
    assert_eq!(read_key(&mut host, &Key::URef(purse)), Ok(Some(Vec::new())));
    assert_eq!(
        read_key(&mut host, &Key::Balance(purse.addr())),
        Ok(Some(vec![0u8]))
    );
    let (_, short) = casper_create_purse(&mut host, 32);
    assert_eq!(short, addr(2).to_vec());
    assert_eq!(
        host.trace(),
        vec![
            HostFunction::CasperCreatePurse,
            HostFunction::CasperReadValue,
            HostFunction::CasperReadValue,
            HostFunction::CasperCreatePurse,
        ]
    );
}

#[test]
fn builder_seeds_the_state() {
    let mut database: AssocList<Key, StoredValue> = AssocList::new();
    database.insert(Key::Hash([1; 32]), StoredValue::CLValue(CLValue::from_u8(1)));
    let mut named_keys: AssocList<String, Key> = AssocList::new();
    named_keys.insert("one".to_string(), Key::Hash([1; 32]));
    let env = EnvBuilder::new()
        .with_database(database)
        .with_storage(Key::Hash([2; 32]), StoredValue::Record(vec![1, 2, 3]))
        .with_named_keys(named_keys)
        .with_named_key("two", Key::Hash([2; 32]))
        .build();
    assert_eq!(env.named_keys().len(), 2);
    assert_eq!(
        env.peek(&Key::Hash([2; 32])),
        Some(&StoredValue::Record(vec![1, 2, 3]))
    );
    assert!(env.peek(&Key::Hash([2; 32])).unwrap().as_cl_value().is_none());
    let mut host = host_with(env);
    assert_eq!(read_key(&mut host, &Key::Hash([1; 32])), Ok(Some(vec![1u8])));
    assert_eq!(get_key(&mut host, "two"), Ok(Some(Key::Hash([2; 32]))));
    assert_eq!(get_uref(&mut host, "two"), Err(ApiError::UnexpectedKeyVariant));
    assert_eq!(get_uref(&mut host, "none"), Err(ApiError::UnexpectedKeyVariant));
    let uref = URef::new([6; 32], 1).unwrap();
    put_key(&mut host, "u", Key::URef(uref)).unwrap();
    assert_eq!(get_uref(&mut host, "u"), Ok(Some(uref)));
}

#[test]
fn what_the_host_does_not_model() {
    let host = fresh_host();
    assert_eq!(casper_load_caller_information(&host, 1), (31, 0, 0));
    assert_eq!(casper_generic_hash(&host, b"data", 0), 3);
    assert_eq!(
        generic_hash(&host, HashAlgorithm::Blake2b, b"data"),
        Err(ApiError::InvalidArgument)
    );
    assert_eq!(get_immediate_account(&host), Err(ApiError::User(56901)));
}

#[test]
fn print_hands_on_the_encoded_text() {
    assert_eq!(print("hi"), vec![2, 0, 0, 0, b'h', b'i']);
    assert_eq!(print(""), vec![0, 0, 0, 0]);
}
