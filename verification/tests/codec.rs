use casper_types::bytesrepr::ToBytes;
use veles_casper::codec::{
    decode_cl_value, encode_cl_value, encode_name, key_to_bytes, parse_key, parse_name,
    parse_text, parse_uref, uref_to_bytes,
};
use veles_casper::types::{addr_eq, bytes_eq, copy_bytes, CLValue, EntityAddr, Key, URef};

fn theirs(key: casper_types::Key) -> Vec<u8> {
    key.to_bytes().unwrap()
}

#[test]
fn keys_are_encoded_as_the_node_encodes_them() {
    let a = [7u8; 32];
    assert_eq!(
        key_to_bytes(&Key::Account(a)),
        theirs(casper_types::Key::Account(
            casper_types::account::AccountHash::new(a)
        ))
    );
    assert_eq!(key_to_bytes(&Key::Hash(a)), theirs(casper_types::Key::Hash(a)));
    assert_eq!(
        key_to_bytes(&Key::Balance(a)),
        theirs(casper_types::Key::Balance(a))
    );
    assert_eq!(
        key_to_bytes(&Key::SmartContract(a)),
        theirs(casper_types::Key::SmartContract(a))
    );
    for rights in 0..8u8 {
        let ours = URef::new(a, rights).unwrap();
        let node = casper_types::URef::new(
            a,
            casper_types::AccessRights::from_bits(rights).unwrap(),
        );
        assert_eq!(uref_to_bytes(&ours), node.to_bytes().unwrap());
        assert_eq!(key_to_bytes(&Key::URef(ours)), theirs(casper_types::Key::URef(node)));
    }
}

#[test]
fn key_bytes_have_tag_and_fields() {
    let mut a = [0u8; 32];
    a[31] = 9;
    let mut expected = vec![1u8];
    expected.extend_from_slice(&a);
    assert_eq!(key_to_bytes(&Key::Hash(a)), expected);
    expected[0] = 0;
    assert_eq!(key_to_bytes(&Key::Account(a)), expected);
    expected[0] = 6;
    assert_eq!(key_to_bytes(&Key::Balance(a)), expected);
    expected[0] = 16;
    assert_eq!(key_to_bytes(&Key::SmartContract(a)), expected);
    expected[0] = 2;
    expected.push(5);
    assert_eq!(key_to_bytes(&Key::URef(URef::new(a, 5).unwrap())), expected);
}

#[test]
fn keys_come_back_from_their_bytes() {
    for key in [
        Key::Account([1; 32]),
        Key::Hash([2; 32]),
        Key::URef(URef::new([3; 32], 3).unwrap()),
        Key::Balance([4; 32]),
        Key::SmartContract([5; 32]),
        Key::AddressableEntity(EntityAddr::SmartContract([6; 32])),
    ] {
        assert_eq!(parse_key(&key_to_bytes(&key)), Some(key));
    }
}

#[test]
fn bytes_that_are_no_key_are_refused() {
    assert_eq!(parse_key(&[]), None);
    assert_eq!(parse_key(&[1u8; 32]), None);
    assert_eq!(parse_key(&[1u8; 34]), None);
    // a capability address with a byte that is no rights mask
    let mut bytes = vec![2u8];
    bytes.extend_from_slice(&[0u8; 32]);
    bytes.push(8);
    assert_eq!(parse_key(&bytes), None);
    // a key of a kind that this library does not hold
    let era = casper_types::Key::EraSummary.to_bytes().unwrap();
    assert_eq!(parse_key(&era), None);
    // an entity key of a kind that there is not
    let mut bytes = vec![17u8, 3];
    bytes.extend_from_slice(&[0u8; 32]);
    assert_eq!(parse_key(&bytes), None);
    assert_eq!(parse_key(&[17u8]), None);
    assert_eq!(parse_key(&bytes[..33]), None);
}

#[test]
fn entity_keys_are_encoded_as_the_node_encodes_them() {
    let a = [5u8; 32];
    let pairs = [
        (EntityAddr::System(a), casper_types::EntityAddr::System(a)),
        (EntityAddr::Account(a), casper_types::EntityAddr::Account(a)),
        (EntityAddr::SmartContract(a), casper_types::EntityAddr::SmartContract(a)),
    ];
    for (ours, node) in pairs {
        let key = Key::AddressableEntity(ours);
        let bytes = key_to_bytes(&key);
        assert_eq!(bytes, theirs(casper_types::Key::AddressableEntity(node)));
        assert_eq!(bytes.len(), 34);
        assert_eq!(bytes[0], 17);
        assert_eq!(parse_key(&bytes), Some(key));
        assert!(key.same(&key));
        assert!(!key.same(&Key::Hash(a)));
        assert!(ours.same(&ours));
    }
    assert!(!EntityAddr::System(a).same(&EntityAddr::Account(a)));
    assert_eq!(key_to_bytes(&Key::AddressableEntity(EntityAddr::Account(a)))[1], 1);
}

#[test]
fn urefs_come_back_from_their_bytes() {
    let uref = URef::new([9; 32], 6).unwrap();
    let bytes = uref_to_bytes(&uref);
    assert_eq!(bytes.len(), 33);
    assert_eq!(bytes[32], 6);
    assert_eq!(parse_uref(&bytes), Some(uref));
    assert_eq!(parse_uref(&bytes[..32]), None);
    let mut wrong = bytes.clone();
    wrong[32] = 200;
    assert_eq!(parse_uref(&wrong), None);
    assert_eq!(URef::new([9; 32], 8), None);
    assert!(uref.same(&URef::with_all_rights([9; 32]).clone()) == false);
    assert!(URef::with_all_rights([9; 32]).same(&URef::new([9; 32], 7).unwrap()));
}

#[test]
fn names_are_length_prefixed() {
    assert_eq!(encode_name("owner"), "owner".to_string().to_bytes().unwrap());
    assert_eq!(encode_name("owner"), vec![5, 0, 0, 0, b'o', b'w', b'n', b'e', b'r']);
    assert_eq!(
        encode_name("\u{e9}t\u{e9}"),
        "\u{e9}t\u{e9}".to_string().to_bytes().unwrap()
    );
    assert_eq!(parse_name(&encode_name("owner")), Some("owner".to_string()));
    assert_eq!(parse_name(&encode_name("")), Some(String::new()));
    assert_eq!(parse_name(&[5, 0, 0, 0, b'o']), None);
    assert_eq!(parse_name(&[1, 0, 0, 0, b'o', b'w']), None);
    assert_eq!(parse_name(&[1, 0, 0, 0, 0xff]), None);
    assert_eq!(parse_name(&[1, 0]), None);
}

#[test]
fn text_needs_valid_utf8() {
    assert_eq!(parse_text(b"plain"), Some("plain".to_string()));
    assert_eq!(parse_text(&[0xc3, 0xa9]), Some("\u{e9}".to_string()));
    assert_eq!(parse_text(&[0xc3]), None);
    assert_eq!(parse_text(&[]), Some(String::new()));
}

#[test]
fn typed_values_match_the_node() {
    let unit = casper_types::CLValue::unit();
    assert_eq!(encode_cl_value(&CLValue::unit()), unit.to_bytes().unwrap());

    let number = casper_types::CLValue::from_t(77u64).unwrap();
    assert_eq!(encode_cl_value(&CLValue::from_u64(77)), number.to_bytes().unwrap());
    assert_eq!(CLValue::from_u64(77).inner_bytes(), number.inner_bytes());

    let byte = casper_types::CLValue::from_t(200u8).unwrap();
    assert_eq!(encode_cl_value(&CLValue::from_u8(200)), byte.to_bytes().unwrap());

    let truth = casper_types::CLValue::from_t(true).unwrap();
    assert_eq!(encode_cl_value(&CLValue::from_bool(true)), truth.to_bytes().unwrap());
    let falsehood = casper_types::CLValue::from_t(false).unwrap();
    assert_eq!(
        encode_cl_value(&CLValue::from_bool(false)),
        falsehood.to_bytes().unwrap()
    );

    let zero = casper_types::CLValue::from_t(casper_types::U512::zero()).unwrap();
    assert_eq!(encode_cl_value(&CLValue::zero_balance()), zero.to_bytes().unwrap());

    let a = [3u8; 32];
    let node = casper_types::URef::new(a, casper_types::AccessRights::READ_ADD_WRITE);
    let seed = casper_types::CLValue::from_t(node).unwrap();
    assert_eq!(
        encode_cl_value(&CLValue::from_uref(&URef::new(a, 7).unwrap())),
        seed.to_bytes().unwrap()
    );
}

#[test]
fn typed_values_come_back_from_their_bytes() {
    let text = casper_types::CLValue::from_t("hello".to_string()).unwrap();
    let ours = decode_cl_value(&text.to_bytes().unwrap()).unwrap();
    assert_eq!(ours.inner_bytes(), text.inner_bytes());
    assert_eq!(ours.cl_type(), &vec![10u8]);
    assert_eq!(ours.len(), 9);
    assert_eq!(encode_cl_value(&ours), text.to_bytes().unwrap());

    let list = casper_types::CLValue::from_t(vec![Some(1u32), None]).unwrap();
    let ours = decode_cl_value(&list.to_bytes().unwrap()).unwrap();
    assert_eq!(ours.cl_type(), &vec![14u8, 13, 4]);
    assert_eq!(ours.duplicate(), ours);
    assert!(ours.same(&ours.duplicate()));
    assert!(!ours.same(&CLValue::unit()));
    assert_eq!(ours.duplicate().into_bytes(), list.inner_bytes().clone());
}

#[test]
fn bytes_that_are_no_typed_value_are_refused() {
    assert!(decode_cl_value(&[]).is_none());
    assert!(decode_cl_value(&[0, 0, 0]).is_none());
    // the length runs past the end
    assert!(decode_cl_value(&[2, 0, 0, 0, 1, 9]).is_none());
    // no type at all
    assert!(decode_cl_value(&[1, 0, 0, 0, 1]).is_none());
    // a tag that stands for no type
    assert!(decode_cl_value(&[0, 0, 0, 0, 99]).is_none());
    // a list without the type of its items
    assert!(decode_cl_value(&[0, 0, 0, 0, 14]).is_none());
    // bytes after the type
    assert!(decode_cl_value(&[0, 0, 0, 0, 9, 9]).is_none());
    assert!(decode_cl_value(&[0, 0, 0, 0, 9]).is_some());
}

#[test]
fn a_typed_value_needs_the_encoding_of_a_type() {
    assert!(CLValue::new(vec![9], vec![]).is_some());
    assert!(CLValue::new(vec![13, 5], vec![0]).is_some());
    assert!(CLValue::new(vec![], vec![]).is_none());
    assert!(CLValue::new(vec![13], vec![0]).is_none());
    assert!(CLValue::new(vec![200], vec![0]).is_none());
    assert!(CLValue::new(vec![9, 9], vec![]).is_none());
    let value = CLValue::new(vec![5], vec![1, 2, 3, 4, 5, 6, 7, 8]).unwrap();
    assert_eq!(value.cl_type(), &vec![5u8]);
    assert_eq!(value.inner_bytes(), &vec![1u8, 2, 3, 4, 5, 6, 7, 8]);
}

#[test]
fn byte_helpers() {
    assert!(addr_eq(&[1; 32], &[1; 32]));
    let mut other = [1u8; 32];
    other[31] = 2;
    assert!(!addr_eq(&[1; 32], &other));
    assert!(bytes_eq(&vec![1, 2], &vec![1, 2]));
    assert!(!bytes_eq(&vec![1, 2], &vec![1, 3]));
    assert!(!bytes_eq(&vec![1, 2], &vec![1]));
    assert_eq!(copy_bytes(&vec![4, 5, 6]), vec![4, 5, 6]);
    assert!(Key::Hash([1; 32]).same(&Key::Hash([1; 32])));
    assert!(!Key::Hash([1; 32]).same(&Key::Account([1; 32])));
}
