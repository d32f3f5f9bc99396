//! How keys, capability addresses, names and typed values are written as
//! bytes at the boundary.
//!
//! Keys, capability addresses and names are encoded and decoded by the
//! `casper-types` crate; what its encoders produce for the values of this
//! library is stated here in full. Whether bytes encode a value type is for
//! that crate alone to say.

use vstd::prelude::*;
use vstd::bytes::*;
use vstd::utf8::*;
use vstd::string::*;
use crate::types::{CLValue, CLValueView, EntityAddr, Key, URef};
use casper_types::bytesrepr::ToBytes;
use casper_types::{AccessRights as R, EntityAddr as E, Key as K};
use std::fmt::Write;

verus! {

broadcast use vstd::array::group_array_axioms;

/// The encoding of a capability address: the address, then the rights mask.
pub open spec fn spec_uref_bytes(u: URef) -> Seq<u8> {
    u.spec_addr()@.push(u.spec_rights())
}

/// The encoding of an entity address: a tag for its kind, then the address.
pub open spec fn spec_entity_bytes(e: EntityAddr) -> Seq<u8> {
    match e {
        EntityAddr::System(a) => seq![0u8] + a@,
        EntityAddr::Account(a) => seq![1u8] + a@,
        EntityAddr::SmartContract(a) => seq![2u8] + a@,
    }
}

/// The encoding of a key: a tag for its variant, then what the variant holds.
pub open spec fn spec_key_bytes(k: Key) -> Seq<u8> {
    match k {
        Key::Account(a) => seq![0u8] + a@,
        Key::Hash(a) => seq![1u8] + a@,
        Key::URef(u) => seq![2u8] + spec_uref_bytes(u),
        Key::Balance(a) => seq![6u8] + a@,
        Key::SmartContract(a) => seq![16u8] + a@,
        Key::AddressableEntity(e) => seq![17u8] + spec_entity_bytes(e),
    }
}

/// The encoding of a name: the length of its UTF-8 form in four
/// little-endian bytes, then that form.
pub open spec fn spec_name_bytes(name: Seq<char>) -> Seq<u8> {
    spec_u32_to_le_bytes(encode_utf8(name).len() as u32) + encode_utf8(name)
}

/// Whether a name is short enough to be encoded.
pub open spec fn name_fits(name: Seq<char>) -> bool {
    encode_utf8(name).len() <= u32::MAX
}

/// Whether bytes are the encoding of a value type.
pub uninterp spec fn cl_type_encoding(bytes: Seq<u8>) -> bool;

/// The text that describes the error that a status stands for.
pub uninterp spec fn reason_text(status: u32) -> Seq<char>;

/// Asks `casper_types::bytesrepr::deserialize_from_slice` whether `bytes` are
/// the whole encoding of a `casper_types::CLType`. The first thirteen tags,
/// `0` to `12`, stand for the types without parameters (from `bool` to
/// `URef`), so each of them alone is such an encoding.
#[verifier::external_body]
pub(crate) fn is_cl_type(bytes: &[u8]) -> (r: bool)
    ensures
        r == cl_type_encoding(bytes@),
        bytes@.len() == 1 && bytes@[0] <= 12 ==> r,
{
    casper_types::bytesrepr::deserialize_from_slice::<&[u8], casper_types::CLType>(bytes).is_ok()
}

/// Calls `casper_types::Key::to_bytes` on the key of that crate that holds the
/// same variant and fields: one tag byte, then the fields as they stand.
#[verifier::external_body]
pub(crate) fn encode_key(key: &Key) -> (r: Vec<u8>)
    requires
        key.wf(),
    ensures
        r@ == spec_key_bytes(*key),
{
    let k = match *key {
        Key::Account(a) => K::Account(casper_types::account::AccountHash::new(a)),
        Key::Hash(a) => K::Hash(a),
        Key::URef(u) => K::URef(casper_types::URef::new(u.addr, R::from_bits_truncate(u.rights))),
        Key::Balance(a) => K::Balance(a),
        Key::SmartContract(a) => K::SmartContract(a),
        Key::AddressableEntity(EntityAddr::System(a)) => K::AddressableEntity(E::System(a)),
        Key::AddressableEntity(EntityAddr::Account(a)) => K::AddressableEntity(E::Account(a)),
        Key::AddressableEntity(EntityAddr::SmartContract(a)) => K::AddressableEntity(E::SmartContract(a)),
    };
    k.to_bytes().unwrap_or_default()
}

/// Calls `casper_types::bytesrepr::deserialize_from_slice` for a
/// `casper_types::Key`. It answers with a key exactly when `bytes` are the
/// whole encoding of a key of one of the five variants that hold an
/// address or a capability address; keys of other variants, entity keys
/// among them, are handed on as `None`.
#[verifier::external_body]
pub(crate) fn decode_key(bytes: &[u8]) -> (r: Option<Key>)
    ensures
        r is Some ==> r.unwrap().wf() && spec_key_bytes(r.unwrap()) == bytes@ && !(r.unwrap()
            is AddressableEntity),
        r is None ==> forall|k: Key|
            k.wf() && !(k is AddressableEntity) ==> spec_key_bytes(k) != bytes@,
{
    match casper_types::bytesrepr::deserialize_from_slice::<&[u8], K>(bytes) {
        Ok(K::Account(a)) => Some(Key::Account(a.value())),
        Ok(K::Hash(a)) => Some(Key::Hash(a)),
        Ok(K::URef(u)) => Some(Key::URef(URef { addr: u.addr(), rights: u.access_rights().bits() })),
        Ok(K::Balance(a)) => Some(Key::Balance(a)),
        Ok(K::SmartContract(a)) => Some(Key::SmartContract(a)),
        _ => None,
    }
}

/// Calls `casper_types::bytesrepr::deserialize_from_slice` for a
/// `casper_types::EntityAddr`. It answers with an entity address exactly
/// when `bytes` are the tag of a kind followed by an address.
#[verifier::external_body]
pub(crate) fn decode_entity_addr(bytes: &[u8]) -> (r: Option<EntityAddr>)
    ensures
        r is Some ==> spec_entity_bytes(r.unwrap()) == bytes@,
        r is None ==> forall|e: EntityAddr| spec_entity_bytes(e) != bytes@,
{
    match casper_types::bytesrepr::deserialize_from_slice::<&[u8], E>(bytes) {
        Ok(E::System(a)) => Some(EntityAddr::System(a)),
        Ok(E::Account(a)) => Some(EntityAddr::Account(a)),
        Ok(E::SmartContract(a)) => Some(EntityAddr::SmartContract(a)),
        Err(_) => None,
    }
}

/// Calls `casper_types::URef::to_bytes`: the address, then the rights mask in
/// one byte.
#[verifier::external_body]
pub(crate) fn encode_uref(uref: &URef) -> (r: Vec<u8>)
    requires
        uref.wf(),
    ensures
        r@ == spec_uref_bytes(*uref),
{
    let rights = casper_types::AccessRights::from_bits_truncate(uref.rights);
    casper_types::URef::new(uref.addr, rights).to_bytes().unwrap_or_default()
}

/// Calls `casper_types::bytesrepr::deserialize_from_slice` for a
/// `casper_types::URef`. It answers with a capability address exactly when
/// `bytes` are an address followed by one byte that is a rights mask.
#[verifier::external_body]
pub(crate) fn decode_uref(bytes: &[u8]) -> (r: Option<URef>)
    ensures
        r is Some ==> r.unwrap().wf() && spec_uref_bytes(r.unwrap()) == bytes@,
        r is None ==> forall|u: URef| u.wf() ==> spec_uref_bytes(u) != bytes@,
{
    match casper_types::bytesrepr::deserialize_from_slice::<&[u8], casper_types::URef>(bytes) {
        Ok(u) => Some(URef { addr: u.addr(), rights: u.access_rights().bits() }),
        Err(_) => None,
    }
}

/// Calls `casper_types::bytesrepr::deserialize_from_slice` for a `String`. It
/// answers with a name exactly when `bytes` are a length in four
/// little-endian bytes followed by that many bytes of valid UTF-8 and nothing
/// more.
#[verifier::external_body]
pub(crate) fn decode_name(bytes: &[u8]) -> (r: Option<String>)
    ensures
        r is Some ==> name_fits(r.unwrap()@) && spec_name_bytes(r.unwrap()@) == bytes@,
        r is None ==> forall|s: Seq<char>| name_fits(s) ==> spec_name_bytes(s) != bytes@,
{
    casper_types::bytesrepr::deserialize_from_slice::<&[u8], String>(bytes).ok()
}

/// Writes, with the `Debug` form of `casper_types::ApiError`, the error that
/// `casper_types::ApiError::from` makes of a status.
#[verifier::external_body]
pub(crate) fn describe_status(status: u32) -> (r: String)
    ensures
        r@ == reason_text(status),
{
    let mut text = String::new();
    let _ = write!(text, "{:?}", casper_types::ApiError::from(status));
    text
}

/// A typed value can be encoded when its type is the encoding of a value
/// type and its length fits in four bytes.
pub open spec fn cl_value_wf(v: CLValueView) -> bool {
    cl_type_encoding(v.cl_type) && v.bytes.len() <= u32::MAX
}

/// The encoding of a typed value: the length of the value's bytes in four
/// little-endian bytes, those bytes, then the encoding of the type.
pub open spec fn spec_cl_value_bytes(v: CLValueView) -> Seq<u8> {
    spec_u32_to_le_bytes(v.bytes.len() as u32) + v.bytes + v.cl_type
}

/// The typed value that bytes encode, if they encode one.
pub open spec fn spec_parse_cl_value(b: Seq<u8>) -> Option<CLValueView> {
    if b.len() < 4 {
        None
    } else {
        let n = spec_u32_from_le_bytes(b.take(4)) as int;
        if 4 + n > b.len() {
            None
        } else if !cl_type_encoding(b.skip(4 + n)) {
            None
        } else {
            Some(CLValueView { bytes: b.subrange(4, 4 + n), cl_type: b.skip(4 + n) })
        }
    }
}

/// A typed value comes back from its encoding.
pub proof fn lemma_cl_value_round_trip(v: CLValueView)
    requires
        cl_value_wf(v),
    ensures
        spec_parse_cl_value(spec_cl_value_bytes(v)) == Some(v),
{
    lemma_auto_spec_u32_to_from_le_bytes();
    let b = spec_cl_value_bytes(v);
    let n = v.bytes.len() as u32;
    assert(b.take(4) =~= spec_u32_to_le_bytes(n));
    assert(b.subrange(4, 4 + n) =~= v.bytes);
    assert(b.skip(4 + n) =~= v.cl_type);
}

/// The bytes of a slice from `from` up to `to`, as a vector.
pub fn slice_to_vec(bytes: &[u8], from: usize, to: usize) -> (r: Vec<u8>)
    requires
        from <= to <= bytes@.len(),
    ensures
        r@ == bytes@.subrange(from as int, to as int),
{
    let mut out: Vec<u8> = Vec::new();
    let mut i: usize = from;
    while i < to
        invariant
            from <= i <= to,
            to <= bytes@.len(),
            out@ == bytes@.subrange(from as int, i as int),
        decreases to - i,
    {
        out.push(bytes[i]);
        assert(bytes@.subrange(from as int, i + 1) == bytes@.subrange(from as int, i as int).push(
            bytes@[i as int],
        ));
        i += 1;
    }
    out
}

/// Appends the bytes of `tail` to `out`.
pub fn append_bytes(out: &mut Vec<u8>, tail: &[u8])
    ensures
        final(out)@ == old(out)@ + tail@,
{
    let mut i: usize = 0;
    while i < tail.len()
        invariant
            i <= tail@.len(),
            out@ == old(out)@ + tail@.take(i as int),
        decreases tail@.len() - i,
    {
        out.push(tail[i]);
        assert(tail@.take(i + 1) == tail@.take(i as int).push(tail@[i as int]));
        i += 1;
    }
    assert(tail@.take(tail@.len() as int) == tail@);
}

/// The encoding of a typed value.
pub fn encode_cl_value(value: &CLValue) -> (r: Vec<u8>)
    ensures
        r@ == spec_cl_value_bytes(value@),
        spec_parse_cl_value(r@) == Some(value@),
{
    proof {
        use_type_invariant(value);
        lemma_cl_value_round_trip(value@);
    }
    let n: u32 = value.len() as u32;
    let mut out = u32_to_le_bytes(n);
    append_bytes(&mut out, value.inner_bytes().as_slice());
    append_bytes(&mut out, value.cl_type().as_slice());
    out
}

/// The typed value that bytes encode, if they encode one.
pub fn decode_cl_value(bytes: &[u8]) -> (r: Option<CLValue>)
    ensures
        r is Some <==> spec_parse_cl_value(bytes@) is Some,
        r is Some ==> r.unwrap()@ == spec_parse_cl_value(bytes@).unwrap(),
{
    if bytes.len() < 4 {
        return None;
    }
    let prefix = slice_to_vec(bytes, 0, 4);
    assert(prefix@ == bytes@.take(4));
    let n: usize = u32_from_le_bytes(prefix.as_slice()) as usize;
    if n > bytes.len() - 4 {
        return None;
    }
    let cl_type = slice_to_vec(bytes, 4 + n, bytes.len());
    assert(cl_type@ == bytes@.skip(4 + n));
    let inner = slice_to_vec(bytes, 4, 4 + n);
    CLValue::new(cl_type, inner)
}

/// The length of a string's UTF-8 form.
pub fn utf8_len(s: &str) -> (n: usize)
    ensures
        n == encode_utf8(s@).len(),
{
    s.as_bytes().len()
}

/// The encoding of a name.
pub fn encode_name(name: &str) -> (r: Vec<u8>)
    requires
        name_fits(name@),
    ensures
        r@ == spec_name_bytes(name@),
{
    let raw = name.as_bytes();
    let n: u32 = raw.len() as u32;
    let mut out = u32_to_le_bytes(n);
    append_bytes(&mut out, raw);
    out
}

/// Two names with the same encoding are the same name.
pub proof fn lemma_name_bytes_injective(a: Seq<char>, b: Seq<char>)
    requires
        name_fits(a),
        name_fits(b),
        spec_name_bytes(a) == spec_name_bytes(b),
    ensures
        a == b,
{
    lemma_auto_spec_u32_to_from_le_bytes();
    let ea = encode_utf8(a);
    let eb = encode_utf8(b);
    let pa = spec_u32_to_le_bytes(ea.len() as u32);
    let pb = spec_u32_to_le_bytes(eb.len() as u32);
    assert(spec_name_bytes(a).skip(4) =~= ea);
    assert(spec_name_bytes(b).skip(4) =~= eb);
    encode_utf8_decode_utf8(a);
    encode_utf8_decode_utf8(b);
}

/// Two well-formed keys with the same encoding are the same key.
pub proof fn lemma_key_bytes_injective(a: Key, b: Key)
    requires
        spec_key_bytes(a) == spec_key_bytes(b),
    ensures
        a == b,
{
    let x = spec_key_bytes(a);
    let y = spec_key_bytes(b);
    assert(x[0] == y[0]);
    assert(x.len() == y.len());
    match (a, b) {
        (Key::Account(p), Key::Account(q)) => {
            assert(x.skip(1) =~= p@);
            assert(y.skip(1) =~= q@);
            assert(p =~= q);
        },
        (Key::Hash(p), Key::Hash(q)) => {
            assert(x.skip(1) =~= p@);
            assert(y.skip(1) =~= q@);
            assert(p =~= q);
        },
        (Key::Balance(p), Key::Balance(q)) => {
            assert(x.skip(1) =~= p@);
            assert(y.skip(1) =~= q@);
            assert(p =~= q);
        },
        (Key::SmartContract(p), Key::SmartContract(q)) => {
            assert(x.skip(1) =~= p@);
            assert(y.skip(1) =~= q@);
            assert(p =~= q);
        },
        (Key::URef(p), Key::URef(q)) => {
            assert(x.skip(1) =~= spec_uref_bytes(p));
            assert(y.skip(1) =~= spec_uref_bytes(q));
            lemma_uref_bytes_injective(p, q);
        },
        (Key::AddressableEntity(p), Key::AddressableEntity(q)) => {
            assert(x.skip(1) =~= spec_entity_bytes(p));
            assert(y.skip(1) =~= spec_entity_bytes(q));
            lemma_entity_bytes_injective(p, q);
        },
        _ => {},
    }
}

/// Two entity addresses with the same encoding are the same.
pub proof fn lemma_entity_bytes_injective(a: EntityAddr, b: EntityAddr)
    requires
        spec_entity_bytes(a) == spec_entity_bytes(b),
    ensures
        a == b,
{
    let x = spec_entity_bytes(a);
    let y = spec_entity_bytes(b);
    assert(x[0] == y[0]);
    match (a, b) {
        (EntityAddr::System(p), EntityAddr::System(q)) => {
            assert(x.skip(1) =~= p@);
            assert(y.skip(1) =~= q@);
            assert(p =~= q);
        },
        (EntityAddr::Account(p), EntityAddr::Account(q)) => {
            assert(x.skip(1) =~= p@);
            assert(y.skip(1) =~= q@);
            assert(p =~= q);
        },
        (EntityAddr::SmartContract(p), EntityAddr::SmartContract(q)) => {
            assert(x.skip(1) =~= p@);
            assert(y.skip(1) =~= q@);
            assert(p =~= q);
        },
        _ => {},
    }
}

/// Two capability addresses with the same encoding are the same.
pub proof fn lemma_uref_bytes_injective(a: URef, b: URef)
    requires
        spec_uref_bytes(a) == spec_uref_bytes(b),
    ensures
        a == b,
{
    let x = spec_uref_bytes(a);
    let y = spec_uref_bytes(b);
    assert(x.take(32) =~= a.spec_addr()@);
    assert(y.take(32) =~= b.spec_addr()@);
    assert(a.spec_addr() =~= b.spec_addr());
    assert(x[32] == a.spec_rights());
    assert(y[32] == b.spec_rights());
    URef::lemma_same_parts(a, b);
}

/// The key that bytes encode, if they encode one.
pub open spec fn spec_decode_key(b: Seq<u8>) -> Option<Key> {
    if exists|k: Key| k.wf() && #[trigger] spec_key_bytes(k) == b {
        Some(choose|k: Key| k.wf() && #[trigger] spec_key_bytes(k) == b)
    } else {
        None
    }
}

/// The capability address that bytes encode, if they encode one.
pub open spec fn spec_decode_uref(b: Seq<u8>) -> Option<URef> {
    if exists|u: URef| u.wf() && #[trigger] spec_uref_bytes(u) == b {
        Some(choose|u: URef| u.wf() && #[trigger] spec_uref_bytes(u) == b)
    } else {
        None
    }
}

/// The name that bytes encode, if they encode one.
pub open spec fn spec_decode_name(b: Seq<u8>) -> Option<Seq<char>> {
    if exists|s: Seq<char>| name_fits(s) && #[trigger] spec_name_bytes(s) == b {
        Some(choose|s: Seq<char>| name_fits(s) && #[trigger] spec_name_bytes(s) == b)
    } else {
        None
    }
}

/// A key comes back from its encoding.
pub proof fn lemma_key_round_trip(k: Key)
    requires
        k.wf(),
    ensures
        spec_decode_key(spec_key_bytes(k)) == Some(k),
{
    let b = spec_key_bytes(k);
    let found = choose|j: Key| j.wf() && #[trigger] spec_key_bytes(j) == b;
    lemma_key_bytes_injective(found, k);
}

/// A capability address comes back from its encoding.
pub proof fn lemma_uref_round_trip(u: URef)
    requires
        u.wf(),
    ensures
        spec_decode_uref(spec_uref_bytes(u)) == Some(u),
{
    let b = spec_uref_bytes(u);
    let found = choose|j: URef| j.wf() && #[trigger] spec_uref_bytes(j) == b;
    lemma_uref_bytes_injective(found, u);
}

/// A name comes back from its encoding.
pub proof fn lemma_name_round_trip(s: Seq<char>)
    requires
        name_fits(s),
    ensures
        spec_decode_name(spec_name_bytes(s)) == Some(s),
{
    let b = spec_name_bytes(s);
    let found = choose|t: Seq<char>| name_fits(t) && #[trigger] spec_name_bytes(t) == b;
    lemma_name_bytes_injective(found, s);
}

/// The encoding of a key.
pub fn key_to_bytes(key: &Key) -> (r: Vec<u8>)
    ensures
        key.wf(),
        r@ == spec_key_bytes(*key),
        spec_decode_key(r@) == Some(*key),
{
    key.check();
    proof {
        lemma_key_round_trip(*key);
    }
    encode_key(key)
}

/// The key that bytes encode, if they encode one.
pub fn parse_key(bytes: &[u8]) -> (r: Option<Key>)
    ensures
        r == spec_decode_key(bytes@),
        r is Some ==> r.unwrap().wf() && spec_key_bytes(r.unwrap()) == bytes@,
{
    if bytes.len() > 0 && bytes[0] == 17 {
        let rest = slice_to_vec(bytes, 1, bytes.len());
        match decode_entity_addr(rest.as_slice()) {
            Some(entity) => {
                let key = Key::AddressableEntity(entity);
                proof {
                    assert(spec_key_bytes(key) =~= bytes@);
                    lemma_key_round_trip(key);
                }
                Some(key)
            },
            None => {
                proof {
                    assert forall|k: Key| k.wf() implies #[trigger] spec_key_bytes(k)
                        != bytes@ by {
                        if spec_key_bytes(k) == bytes@ {
                            assert(spec_key_bytes(k)[0] == 17);
                            match k {
                                Key::AddressableEntity(e) => {
                                    assert(spec_key_bytes(k).skip(1) =~= spec_entity_bytes(e));
                                },
                                _ => {},
                            }
                        }
                    }
                }
                None
            },
        }
    } else {
        let r = decode_key(bytes);
        proof {
            if r is Some {
                lemma_key_round_trip(r.unwrap());
            } else {
                assert forall|k: Key| k.wf() implies #[trigger] spec_key_bytes(k) != bytes@ by {
                    if k is AddressableEntity && spec_key_bytes(k) == bytes@ {
                        assert(spec_key_bytes(k)[0] == 17);
                    }
                }
            }
        }
        r
    }
}

/// The encoding of a capability address.
pub fn uref_to_bytes(uref: &URef) -> (r: Vec<u8>)
    ensures
        uref.wf(),
        r@ == spec_uref_bytes(*uref),
        spec_decode_uref(r@) == Some(*uref),
{
    proof {
        use_type_invariant(uref);
        lemma_uref_round_trip(*uref);
    }
    encode_uref(uref)
}

/// The capability address that bytes encode, if they encode one.
pub fn parse_uref(bytes: &[u8]) -> (r: Option<URef>)
    ensures
        r == spec_decode_uref(bytes@),
        r is Some ==> r.unwrap().wf() && spec_uref_bytes(r.unwrap()) == bytes@,
{
    let r = decode_uref(bytes);
    proof {
        if r is Some {
            lemma_uref_round_trip(r.unwrap());
        }
    }
    r
}

/// The name that bytes encode, if they encode one.
pub fn parse_name(bytes: &[u8]) -> (r: Option<String>)
    ensures
        r is Some <==> spec_decode_name(bytes@) is Some,
        r is Some ==> r.unwrap()@ == spec_decode_name(bytes@).unwrap() && name_fits(r.unwrap()@)
            && spec_name_bytes(r.unwrap()@) == bytes@,
{
    let r = decode_name(bytes);
    proof {
        if r is Some {
            lemma_name_round_trip(r.unwrap()@);
        }
    }
    r
}

/// Calls `String::from_utf8` on a copy of `bytes`: the text that the bytes
/// spell, where they are valid UTF-8.
#[verifier::external_body]
pub(crate) fn utf8_to_string(bytes: &[u8]) -> (r: Option<String>)
    ensures
        r is Some <==> valid_utf8(bytes@),
        r is Some ==> r.unwrap()@ == decode_utf8(bytes@),
{
    String::from_utf8(bytes.to_vec()).ok()
}

/// The text that bytes spell, where they are valid UTF-8.
pub fn parse_text(bytes: &[u8]) -> (r: Option<String>)
    ensures
        r is Some <==> valid_utf8(bytes@),
        r is Some ==> r.unwrap()@ == decode_utf8(bytes@) && encode_utf8(r.unwrap()@) == bytes@,
{
    let r = utf8_to_string(bytes);
    proof {
        if r is Some {
            decode_utf8_encode_utf8(bytes@);
        }
    }
    r
}

} // verus!
