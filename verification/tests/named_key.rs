use veles_casper::assoc::AssocList;
use veles_casper::env::EnvBuilder;
use veles_casper::error::ApiError;
use veles_casper::host::Host;
use veles_casper::named_key::{Fallback, NamedKey};
use veles_casper::trace::HostFunction;
use veles_casper::types::{CLValue, Key, URef};

const NAME: &str = "test_key";

fn expected_key() -> Key {
    Key::Hash([42u8; 32])
}

fn empty_host() -> Host {
    let mut host = Host::new();
    host.begin_dispatch(EnvBuilder::new().build());
    host
}

fn seeded_host() -> Host {
    let mut host = Host::new();
    host.begin_dispatch(EnvBuilder::new().with_named_key(NAME, expected_key()).build());
    host
}

fn has_name(host: &Host, name: &str) -> bool {
    host.named_keys().contains_key(&name.to_string())
}

#[test]
fn test_named_key_set_and_get() {
    let mut host = empty_host();
    let mut named_key = NamedKey::from_name(NAME);

    assert_eq!(named_key.get(&mut host).unwrap(), None);
    assert_eq!(host.trace(), vec![HostFunction::CasperGetKey(NAME.into()),]);

    named_key.set(&mut host, expected_key()).unwrap();
    assert_eq!(
        host.trace(),
        vec![HostFunction::CasperPutKey(NAME.into(), expected_key()),]
    );

    let retrieved_key = named_key.get(&mut host).unwrap().unwrap();
    assert_eq!(retrieved_key, expected_key());

    assert_eq!(host.trace(), vec![]);
}

#[test]
fn resolve_pre_existing() {
    let mut host = seeded_host();
    let mut named_key = NamedKey::from_name(NAME);

    assert_eq!(named_key.get(&mut host).unwrap().unwrap(), expected_key());
    assert_eq!(host.trace(), vec![HostFunction::CasperGetKey(NAME.into()),]);
}

#[test]
fn test_named_key_get_or_init_creates_new() {
    let mut host = empty_host();
    let mut named_key = NamedKey::from_name(NAME);

    let result = named_key.get_or_init(&mut host, Fallback::Ready(Ok(expected_key())));
    assert!(result.is_ok());

    assert_eq!(host.trace(), vec![HostFunction::CasperGetKey(NAME.into()),]);

    // the key is known to the guest, not yet to the host
    assert!(!has_name(&host, NAME));

    let retrieved_key = named_key.get(&mut host).unwrap().unwrap();
    assert_eq!(retrieved_key, expected_key());

    named_key.put_to_named_keys(&mut host).unwrap();

    assert_eq!(
        host.trace(),
        vec![HostFunction::CasperPutKey(NAME.into(), expected_key()),]
    );
}

#[test]
fn test_named_key_get_or_init_returns_existing() {
    let mut host = seeded_host();
    let mut named_key = NamedKey::from_name(NAME);

    let result = named_key.get_or_init(&mut host, Fallback::Ready(Ok(Key::Hash([99u8; 32]))));
    assert!(result.is_ok());

    let retrieved_key = named_key.get(&mut host).unwrap().unwrap();
    assert_eq!(retrieved_key, expected_key());

    assert_eq!(host.trace(), vec![HostFunction::CasperGetKey(NAME.into()),]);
}

#[test]
fn test_named_key_clear() {
    let mut host = seeded_host();
    let named_key = NamedKey::from_name(NAME);

    named_key.clear(&mut host);

    assert_eq!(
        host.trace(),
        vec![HostFunction::CasperRemoveKey(NAME.into()),]
    );
}

#[test]
fn test_named_key_caching() {
    let mut host = seeded_host();
    let mut named_key = NamedKey::from_name(NAME);

    // the first question goes to the host
    assert_eq!(named_key.get(&mut host).unwrap().unwrap(), expected_key());
    assert_eq!(host.trace(), vec![HostFunction::CasperGetKey(NAME.into())]);

    // the second one is served from the answer that was kept
    assert_eq!(named_key.get(&mut host).unwrap().unwrap(), expected_key());
    assert_eq!(host.trace(), vec![]);

    // and so is the third
    assert_eq!(named_key.get(&mut host).unwrap().unwrap(), expected_key());
    assert_eq!(host.trace(), vec![]);
}

#[test]
fn test_named_key_name() {
    let named_key = NamedKey::from_name(NAME);
    assert_eq!(named_key.name(), NAME);
}

#[test]
fn test_named_key_put_to_named_keys() {
    let mut host = seeded_host();
    let mut named_key = NamedKey::from_name(NAME);

    let result = named_key.put_to_named_keys(&mut host);
    assert!(result.is_ok());

    assert_eq!(
        host.trace(),
        vec![
            HostFunction::CasperGetKey(NAME.into()),
            HostFunction::CasperPutKey(NAME.into(), expected_key()),
        ]
    );
}

#[test]
fn test_named_key_append_to_named_keys() {
    let mut host = seeded_host();
    let mut named_key = NamedKey::from_name(NAME);

    let mut named_keys: AssocList<String, Key> = AssocList::new();
    let result = named_key.append_to_named_keys(&mut host, &mut named_keys);
    assert!(result.is_ok());

    assert_eq!(named_keys.get(&NAME.to_string()), Some(&expected_key()));
}

#[test]
fn test_named_key_take() {
    let mut host = empty_host();
    let mut named_key = NamedKey::from_name(NAME);

    named_key
        .get_or_init(&mut host, Fallback::Ready(Ok(expected_key())))
        .unwrap();
    assert!(!has_name(&host, NAME));

    let taken_key = named_key.take(&mut host).unwrap().unwrap();
    assert_eq!(taken_key, expected_key());

    assert_eq!(host.trace(), vec![HostFunction::CasperGetKey(NAME.into()),]);

    // the next question goes to the host again
    let taken_key_2 = named_key.get(&mut host).unwrap();
    assert_eq!(taken_key_2, None);

    assert_eq!(host.trace(), vec![HostFunction::CasperGetKey(NAME.into()),]);
}

#[test]
fn owner_is_resolved_once_and_set_through() {
    let account_a = Key::Account([0xaa; 32]);
    let account_b = Key::Account([0xbb; 32]);
    let mut host = Host::new();
    host.begin_dispatch(EnvBuilder::new().with_named_key("owner", account_a).build());
    let mut owner = NamedKey::from_name("owner");

    assert_eq!(owner.resolve_key(&mut host), Ok(Some(account_a)));
    assert_eq!(host.trace(), vec![HostFunction::CasperGetKey("owner".into())]);

    assert_eq!(owner.set(&mut host, account_b), Ok(()));
    assert_eq!(
        host.trace(),
        vec![HostFunction::CasperPutKey("owner".into(), account_b)]
    );

    assert_eq!(owner.resolve_key(&mut host), Ok(Some(account_b)));
    assert_eq!(host.trace(), vec![]);
    assert_eq!(
        host.named_keys().get(&"owner".to_string()),
        Some(&account_b)
    );
}

#[test]
fn get_or_init_hands_on_the_error_of_its_fallback() {
    let mut host = empty_host();
    let mut named_key = NamedKey::from_name(NAME);

    let result = named_key.get_or_init(&mut host, Fallback::Ready(Err(ApiError::Unhandled)));
    assert_eq!(result, Err(ApiError::Unhandled));
    // the name is known to have no key
    assert_eq!(named_key.get(&mut host), Ok(None));
    assert_eq!(host.trace(), vec![HostFunction::CasperGetKey(NAME.into())]);
}

#[test]
fn get_or_init_mints_a_dictionary_without_registering_it() {
    let mut host = empty_host();
    let mut named_key = NamedKey::from_name("balances");

    named_key
        .get_or_init(&mut host, Fallback::NewDictionary)
        .unwrap();
    assert!(!has_name(&host, "balances"));

    let mut first = [0u8; 32];
    first[0] = 1;
    let seed = URef::new(first, 7).unwrap();
    assert_eq!(named_key.get(&mut host), Ok(Some(Key::URef(seed))));
    assert_eq!(named_key.resolve_uref(&mut host), Ok(Some(seed)));

    named_key
        .put_dict(&mut host, "alice", CLValue::from_u64(42))
        .unwrap();
    assert_eq!(
        named_key.get_dict(&mut host, "alice"),
        Ok(Some(42u64.to_le_bytes().to_vec()))
    );
    assert_eq!(named_key.get_bytes(&mut host, "bob"), Ok(None));

    named_key.put_to_named_keys(&mut host).unwrap();
    assert!(has_name(&host, "balances"));
}

#[test]
fn get_or_init_mints_a_uref_for_a_value() {
    let mut host = empty_host();
    let mut named_key = NamedKey::from_name("total");

    named_key
        .get_or_init(&mut host, Fallback::NewURef(CLValue::from_u64(7)))
        .unwrap();
    assert_eq!(
        named_key.read(&mut host),
        Ok(Some(7u64.to_le_bytes().to_vec()))
    );
    named_key.write(&mut host, &CLValue::from_u64(8)).unwrap();
    assert_eq!(
        named_key.read(&mut host),
        Ok(Some(8u64.to_le_bytes().to_vec()))
    );
}

#[test]
fn a_name_without_a_key_cannot_be_written_through() {
    let mut host = empty_host();
    let mut named_key = NamedKey::from_name(NAME);

    assert_eq!(
        named_key.write(&mut host, &CLValue::unit()),
        Err(ApiError::MissingKey)
    );
    assert_eq!(named_key.read(&mut host), Ok(None));
    assert_eq!(
        named_key.put_to_named_keys(&mut host),
        Err(ApiError::MissingKey)
    );
    assert_eq!(
        named_key.put_dict(&mut host, "k", CLValue::unit()),
        Err(ApiError::MissingKey)
    );
    assert_eq!(named_key.get_dict(&mut host, "k"), Err(ApiError::MissingKey));
    let mut table: AssocList<String, Key> = AssocList::new();
    assert_eq!(
        named_key.append_to_named_keys(&mut host, &mut table),
        Err(ApiError::MissingKey)
    );
    assert_eq!(table.len(), 0);
}

#[test]
fn a_key_that_is_no_uref_seeds_no_dictionary() {
    let mut host = seeded_host();
    let mut named_key = NamedKey::from_name(NAME);

    assert_eq!(named_key.resolve_uref(&mut host), Ok(None));
    assert_eq!(
        named_key.put_dict(&mut host, "k", CLValue::unit()),
        Err(ApiError::MissingKey)
    );
}

#[test]
fn clear_leaves_the_kept_answer() {
    let mut host = seeded_host();
    let mut named_key = NamedKey::from_name(NAME);
    assert_eq!(named_key.get(&mut host), Ok(Some(expected_key())));
    named_key.clear(&mut host);
    assert!(!has_name(&host, NAME));
    let _ = host.trace();
    assert_eq!(named_key.get(&mut host), Ok(Some(expected_key())));
    assert_eq!(host.trace(), vec![]);
}
