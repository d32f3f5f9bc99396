use veles_casper::client::{
    ListenerConfig, ListenerConfigBuilder, ListenerConfigError, SessionPricing,
};
use veles_casper::codec::key_to_bytes;
use veles_casper::collections::TypedURef;
use veles_casper::contract::{
    allows, base64_encode, bool_of, ensure_mint_burn_enabled, ensure_owner, ensure_owner_is,
    get_current_owner, is_paused, require_unpaused, sec_check, u8_of, Cep18Error,
    ChangeEventsMode, OwnableError, PausableError, SecurityBadge,
};
use veles_casper::env::EnvBuilder;
use veles_casper::error::{ApiError, UniversalError};
use veles_casper::host::Host;
use veles_casper::modalities::{EventsMode, MintBurn};
use veles_casper::named_key::{Fallback, NamedKey};
use veles_casper::types::{CLValue, EntityAddr, Key};
use veles_casper::utils::{
    account_of, entity_addr_of, immediate_entity, CallerAction, CallerInfo, HashAlgorithm,
};

fn host() -> Host {
    let mut host = Host::new();
    host.begin_dispatch(EnvBuilder::new().build());
    host
}

#[test]
fn base64_is_standard_and_padded() {
    assert_eq!(base64_encode(&b"hello".to_vec()), "aGVsbG8=");
    assert_eq!(base64_encode(&Vec::new()), "");
    assert_eq!(base64_encode(&vec![0xfb, 0xff]), "+/8=");
    for n in 0..40usize {
        let text = base64_encode(&vec![7u8; n]);
        assert_eq!(text.len(), (n / 3) * 4 + if n % 3 > 0 { 4 } else { 0 });
    }
}

#[test]
fn sec_check_looks_the_caller_up() {
    let mut host = host();
    let admin = Key::Account([1; 32]);
    let minter = Key::Account([2; 32]);
    let stranger = Key::Account([3; 32]);
    let broken = Key::Account([4; 32]);
    let mut badges = NamedKey::from_name("security_badges");
    badges.get_or_init(&mut host, Fallback::NewDictionary).unwrap();
    let blank = Key::Account([5; 32]);
    for (who, badge) in [
        (admin, vec![0u8]),
        (minter, vec![1u8]),
        (broken, vec![9u8]),
        (blank, Vec::new()),
    ] {
        let item_key = base64_encode(&key_to_bytes(&who));
        let value = CLValue::new(vec![3], badge).unwrap();
        badges.put_dict(&mut host, &item_key, value).unwrap();
    }

    let admins = vec![SecurityBadge::Admin];
    let both = vec![SecurityBadge::Admin, SecurityBadge::Minter];
    assert_eq!(sec_check(&mut host, &mut badges, &admin, &admins), Ok(()));
    assert_eq!(
        sec_check(&mut host, &mut badges, &minter, &admins),
        Err(Cep18Error::InsufficientRights)
    );
    assert_eq!(sec_check(&mut host, &mut badges, &minter, &both), Ok(()));
    assert_eq!(
        sec_check(&mut host, &mut badges, &stranger, &both),
        Err(Cep18Error::InsufficientRights)
    );
    assert_eq!(
        sec_check(&mut host, &mut badges, &broken, &both),
        Err(Cep18Error::FailedToReadFromStorage)
    );
    assert_eq!(
        sec_check(&mut host, &mut badges, &blank, &both),
        Err(Cep18Error::FailedToReadFromStorage)
    );
    assert_eq!(
        sec_check(&mut host, &mut badges, &admin, &Vec::new()),
        Err(Cep18Error::InsufficientRights)
    );

    let mut nowhere = NamedKey::from_name("nowhere");
    assert_eq!(
        sec_check(&mut host, &mut nowhere, &admin, &both),
        Err(Cep18Error::FailedToReadFromStorage)
    );
}

#[test]
fn badges_are_one_byte() {
    assert_eq!(SecurityBadge::Admin.to_bytes(), vec![0u8]);
    assert_eq!(SecurityBadge::Minter.to_bytes(), vec![1u8]);
    assert_eq!(SecurityBadge::NoAccess.to_bytes(), vec![2u8]);
    assert_eq!(SecurityBadge::Admin.serialized_length(), 1);
    assert_eq!(SecurityBadge::from_bytes(&[0]), Ok(SecurityBadge::Admin));
    assert_eq!(SecurityBadge::from_bytes(&[1]), Ok(SecurityBadge::Minter));
    assert_eq!(SecurityBadge::from_bytes(&[2, 7]), Ok(SecurityBadge::NoAccess));
    assert_eq!(SecurityBadge::from_bytes(&[3]), Err(ApiError::LeftOverBytes));
    assert_eq!(SecurityBadge::from_bytes(&[]), Err(ApiError::EarlyEndOfStream));
    assert!(allows(&vec![SecurityBadge::Minter], SecurityBadge::Minter));
    assert!(!allows(&vec![SecurityBadge::Minter], SecurityBadge::Admin));
    assert!(SecurityBadge::Admin.same(&SecurityBadge::Admin));
    assert!(!SecurityBadge::Admin.same(&SecurityBadge::NoAccess));
}

#[test]
fn pausing_is_read_from_the_switch() {
    let mut host = host();
    let mut never_written = TypedURef::from_named_key(NamedKey::from_name("paused"));
    assert_eq!(require_unpaused(&mut host, &mut never_written), Ok(()));

    let mut named_key = NamedKey::from_name("paused");
    named_key
        .get_or_init(&mut host, Fallback::NewURef(CLValue::from_bool(false)))
        .unwrap();
    let mut paused = TypedURef::from_named_key(named_key);
    assert_eq!(require_unpaused(&mut host, &mut paused), Ok(()));
    paused.write(&mut host, CLValue::from_bool(true)).unwrap();
    assert_eq!(
        require_unpaused(&mut host, &mut paused),
        Err(ApiError::User(41002))
    );
    paused.write(&mut host, CLValue::from_u8(7)).unwrap();
    assert_eq!(
        require_unpaused(&mut host, &mut paused),
        Err(ApiError::Formatting)
    );
}

#[test]
fn mint_and_burn_need_their_switch() {
    let mut host = host();
    let mut never_written = TypedURef::from_named_key(NamedKey::from_name("enable_mint_burn"));
    assert_eq!(
        ensure_mint_burn_enabled(&mut host, &mut never_written),
        Err(Cep18Error::MintBurnDisabled)
    );

    let mut named_key = NamedKey::from_name("enable_mint_burn");
    named_key
        .get_or_init(&mut host, Fallback::NewURef(CLValue::from_u8(0)))
        .unwrap();
    let mut flag = TypedURef::from_named_key(named_key);
    assert_eq!(
        ensure_mint_burn_enabled(&mut host, &mut flag),
        Err(Cep18Error::MintBurnDisabled)
    );
    flag.write(&mut host, CLValue::from_u8(1)).unwrap();
    assert_eq!(ensure_mint_burn_enabled(&mut host, &mut flag), Ok(()));
    flag.write(&mut host, CLValue::from_u64(1)).unwrap();
    assert_eq!(
        ensure_mint_burn_enabled(&mut host, &mut flag),
        Err(Cep18Error::FailedToReadFromStorage)
    );
}

#[test]
fn stored_switches_decode() {
    assert_eq!(bool_of(&vec![0]), Ok(false));
    assert_eq!(bool_of(&vec![1]), Ok(true));
    assert_eq!(bool_of(&vec![2]), Err(ApiError::Formatting));
    assert_eq!(bool_of(&vec![]), Err(ApiError::EarlyEndOfStream));
    assert_eq!(bool_of(&vec![1, 0]), Err(ApiError::LeftOverBytes));
    assert_eq!(u8_of(&vec![200]), Ok(200));
    assert_eq!(u8_of(&vec![]), Err(ApiError::EarlyEndOfStream));
    assert_eq!(u8_of(&vec![1, 2]), Err(ApiError::LeftOverBytes));
}

#[test]
fn modes_and_flags_come_from_bytes() {
    assert!(EventsMode::try_from(0) == Ok(EventsMode::NoEvents));
    assert!(EventsMode::try_from(1) == Ok(EventsMode::CES));
    assert!(EventsMode::try_from(2) == Ok(EventsMode::Native));
    assert!(EventsMode::try_from(3) == Ok(EventsMode::NativeBytes));
    assert!(EventsMode::try_from(4) == Err(Cep18Error::InvalidEventsMode));
    assert!(EventsMode::default() == EventsMode::NoEvents);
    assert_eq!(EventsMode::NativeBytes.code(), 3);
    assert!(MintBurn::try_from(0) == Ok(MintBurn::Disabled));
    assert!(MintBurn::try_from(1) == Ok(MintBurn::MintAndBurn));
    assert!(MintBurn::try_from(2) == Err(Cep18Error::InvalidEnableMBFlag));
    assert_eq!(MintBurn::MintAndBurn.code(), 1);
    assert_eq!(ChangeEventsMode { events_mode: 2 }.events_mode, 2);
}

#[test]
fn error_numbers() {
    assert_eq!(Cep18Error::InvalidContext.code(), 60000);
    assert_eq!(Cep18Error::InsufficientBalance.code(), 60001);
    assert_eq!(Cep18Error::InsufficientRights.code(), 60010);
    assert_eq!(Cep18Error::MintBurnDisabled.code(), 60016);
    assert_eq!(Cep18Error::FailedToReadFromStorage.code(), 60027);
    assert_eq!(Cep18Error::InvalidVersionContractKey.code(), 60038);
    assert_eq!(
        Cep18Error::Overflow.into_api_error(),
        ApiError::User(60003)
    );
    assert_eq!(OwnableError::Unauthorized.code(), 62000);
    assert_eq!(OwnableError::ContractPaused.code(), 62004);
    assert_eq!(
        OwnableError::OwnerMissing.into_api_error(),
        ApiError::User(62001)
    );
    assert_eq!(PausableError::NotPaused.code(), 41000);
    assert_eq!(PausableError::AlreadyPaused.code(), 41001);
    assert_eq!(
        PausableError::ContractPaused.into_api_error(),
        ApiError::User(41002)
    );
    assert_eq!(CallerAction::Initiator.code(), 0);
    assert_eq!(CallerAction::Immediate.code(), 1);
    assert_eq!(CallerAction::FullStack.code(), 2);
    assert_eq!(HashAlgorithm::Blake2b.code(), 0);
    assert_eq!(HashAlgorithm::Keccak256.code(), 3);
}

#[test]
fn callers_have_an_entity_address_by_their_kind() {
    let blank = CallerInfo { kind: 0, account: None, entity: None, contract: None };
    assert_eq!(entity_addr_of(&blank), Err(UniversalError::InvalidContext));
    let account = CallerInfo { account: Some([1; 32]), ..blank };
    assert_eq!(
        entity_addr_of(&account),
        Ok(Some(EntityAddr::Account([1; 32])))
    );
    let entity = CallerInfo {
        kind: 3,
        entity: Some(EntityAddr::System([2; 32])),
        ..blank
    };
    assert_eq!(entity_addr_of(&entity), Ok(Some(EntityAddr::System([2; 32]))));
    let contract = CallerInfo { kind: 4, contract: Some([3; 32]), ..blank };
    assert_eq!(
        entity_addr_of(&contract),
        Ok(Some(EntityAddr::SmartContract([3; 32])))
    );
    let package = CallerInfo { kind: 2, contract: Some([3; 32]), ..blank };
    assert_eq!(entity_addr_of(&package), Err(UniversalError::InvalidContext));
    let unknown = CallerInfo { kind: 9, account: Some([1; 32]), ..blank };
    assert_eq!(entity_addr_of(&unknown), Err(UniversalError::InvalidContext));

    assert_eq!(
        immediate_entity(Err(UniversalError::Other(ApiError::Unhandled))),
        Ok(None)
    );
    assert_eq!(
        immediate_entity(Err(UniversalError::Panic)),
        Err(UniversalError::Panic)
    );
    assert_eq!(
        immediate_entity(Ok(account)),
        Ok(Some(EntityAddr::Account([1; 32])))
    );
    assert_eq!(account_of(Ok(Some(EntityAddr::Account([1; 32])))), Ok([1; 32]));
    assert_eq!(
        account_of(Ok(Some(EntityAddr::System([1; 32])))),
        Err(ApiError::User(56901))
    );
    assert_eq!(account_of(Ok(None)), Err(ApiError::User(56901)));
    assert_eq!(
        account_of(Err(UniversalError::Other(ApiError::MissingKey))),
        Err(ApiError::MissingKey)
    );
}

#[test]
fn session_pricing_defaults() {
    let pricing = SessionPricing::default();
    assert_eq!(pricing.payment_amount, 750_000_000_000);
    assert_eq!(pricing.gas_price_tolerance, 1);
    assert!(pricing.standard_payment);
}

#[test]
fn listener_needs_an_endpoint() {
    assert!(matches!(
        ListenerConfig::builder().build(),
        Err(ListenerConfigError::MissingEndpoint)
    ));
    assert!(matches!(
        ListenerConfigBuilder::new().with_endpoint("   ").build(),
        Err(ListenerConfigError::MissingEndpoint)
    ));
    assert!(matches!(
        ListenerConfigBuilder::new()
            .with_timestamp_path("/tmp/ts")
            .build(),
        Err(ListenerConfigError::MissingEndpoint)
    ));
    assert_eq!(
        ListenerConfigError::MissingEndpoint.message(),
        "missing SSE endpoint URL"
    );

    let config = ListenerConfig::builder()
        .with_endpoint("  http://node:9999/events  ")
        .build()
        .unwrap();
    assert_eq!(config.endpoint(), "http://node:9999/events");
    assert_eq!(config.timestamp_path(), None);

    let config = ListenerConfigBuilder::new()
        .with_endpoint("http://node:9999/events")
        .with_timestamp_path("/tmp/ts")
        .build()
        .unwrap();
    assert_eq!(config.endpoint(), "http://node:9999/events");
    assert_eq!(config.timestamp_path(), Some("/tmp/ts"));
}

#[test]
fn the_owner_is_the_account_under_its_name() {
    let mut host = host();
    let mut owner = NamedKey::from_name("owner");
    assert_eq!(get_current_owner(&mut host, &mut owner), Ok(None));
    assert_eq!(
        ensure_owner_is(&mut host, &mut owner, &[1; 32]),
        Err(ApiError::User(62001))
    );

    owner.set(&mut host, Key::Account([1; 32])).unwrap();
    assert_eq!(get_current_owner(&mut host, &mut owner), Ok(Some([1; 32])));
    assert_eq!(ensure_owner_is(&mut host, &mut owner, &[1; 32]), Ok([1; 32]));
    assert_eq!(
        ensure_owner_is(&mut host, &mut owner, &[2; 32]),
        Err(ApiError::User(62000))
    );
    // a host that names no caller lets nobody pass
    assert_eq!(ensure_owner(&mut host, &mut owner), Err(ApiError::User(56901)));

    owner.set(&mut host, Key::Hash([1; 32])).unwrap();
    assert_eq!(
        get_current_owner(&mut host, &mut owner),
        Err(ApiError::UnexpectedKeyVariant)
    );

    let mut never_written = TypedURef::from_named_key(NamedKey::from_name("paused"));
    assert_eq!(is_paused(&mut host, &mut never_written), Ok(false));
    let mut named_key = NamedKey::from_name("paused");
    named_key
        .get_or_init(&mut host, Fallback::NewURef(CLValue::from_bool(true)))
        .unwrap();
    let mut paused = TypedURef::from_named_key(named_key);
    assert_eq!(is_paused(&mut host, &mut paused), Ok(true));
}
