//! Collections that a contract keeps in a dictionary: a mapping, a set and
//! a vector, and a typed handle on a single stored value.
//!
//! Each of them is a named key with a rule for the item keys it uses. Keys
//! that are no text are written in base 128, so that every item key is
//! text; the parts of a compound key are joined by a colon.

use vstd::prelude::*;
use vstd::bytes::*;
use vstd::string::*;
use crate::base128::{ascii_text, encode_bytes, spec_encode_bytes};
use crate::error::ApiError;
use crate::host::{Host, HostView};
use crate::named_key::{
    bytes_outcome_is, can_get_dict, get_dict_host, get_dict_outcome, put_dict_host,
    put_dict_outcome, NamedKey, NamedKeyView,
};
use crate::types::{spec_u64_value, spec_unit_value, CLValue, CLValueView, URef};
use crate::utils::spec_after_read;

verus! {

broadcast use vstd::array::group_array_axioms;

/// The item key under which a vector keeps its length.
pub const VEC_LENGTH_KEY: &'static str = "length";

/// A value that can index a dictionary: it has an item key.
pub trait DictionaryKey {
    /// The item key of the value.
    spec fn spec_dictionary_key(&self) -> Seq<char>;

    /// The item key of the value.
    fn dictionary_key(&self) -> (r: String)
        ensures
            r@ == self.spec_dictionary_key(),
    ;
}

/// The item key of bytes: their base-128 form.
pub open spec fn spec_bytes_key(bytes: Seq<u8>) -> Seq<char> {
    ascii_text(spec_encode_bytes(bytes))
}

/// The item key of two parts.
pub open spec fn spec_joined(a: Seq<char>, b: Seq<char>) -> Seq<char> {
    a + seq![':'] + b
}

impl DictionaryKey for String {
    open spec fn spec_dictionary_key(&self) -> Seq<char> {
        self@
    }

    fn dictionary_key(&self) -> (r: String) {
        self.clone()
    }
}

impl DictionaryKey for str {
    open spec fn spec_dictionary_key(&self) -> Seq<char> {
        self@
    }

    fn dictionary_key(&self) -> (r: String) {
        self.to_owned()
    }
}

impl DictionaryKey for u32 {
    open spec fn spec_dictionary_key(&self) -> Seq<char> {
        spec_bytes_key(spec_u32_to_le_bytes(*self))
    }

    fn dictionary_key(&self) -> (r: String) {
        let bytes = u32_to_le_bytes(*self);
        encode_bytes(bytes.as_slice())
    }
}

impl DictionaryKey for u64 {
    open spec fn spec_dictionary_key(&self) -> Seq<char> {
        spec_bytes_key(spec_u64_to_le_bytes(*self))
    }

    fn dictionary_key(&self) -> (r: String) {
        let bytes = u64_to_le_bytes(*self);
        encode_bytes(bytes.as_slice())
    }
}

/// The bytes of an array, as a vector.
pub fn array_to_vec<const N: usize>(bytes: &[u8; N]) -> (r: Vec<u8>)
    ensures
        r@ == bytes@,
{
    let mut out: Vec<u8> = Vec::new();
    let mut i: usize = 0;
    while i < N
        invariant
            i <= N,
            bytes@.len() == N,
            out@ == bytes@.take(i as int),
        decreases N - i,
    {
        out.push(bytes[i]);
        assert(bytes@.take(i + 1) == bytes@.take(i as int).push(bytes@[i as int]));
        i += 1;
    }
    assert(bytes@.take(N as int) == bytes@);
    out
}

impl<const N: usize> DictionaryKey for [u8; N] {
    open spec fn spec_dictionary_key(&self) -> Seq<char> {
        spec_bytes_key(self@)
    }

    fn dictionary_key(&self) -> (r: String) {
        let bytes = array_to_vec(self);
        encode_bytes(bytes.as_slice())
    }
}

impl<T: DictionaryKey> DictionaryKey for &T {
    open spec fn spec_dictionary_key(&self) -> Seq<char> {
        (**self).spec_dictionary_key()
    }

    fn dictionary_key(&self) -> (r: String) {
        (**self).dictionary_key()
    }
}

/// Joins two item keys with a colon.
pub fn join_keys(a: String, b: &str) -> (r: String)
    ensures
        r@ == spec_joined(a@, b@),
{
    proof {
        reveal_strlit(":");
    }
    let mut joined = a;
    joined.append(":");
    joined.append(b);
    assert(":"@ =~= seq![':']);
    joined
}

impl<T1: DictionaryKey> DictionaryKey for (T1,) {
    open spec fn spec_dictionary_key(&self) -> Seq<char> {
        self.0.spec_dictionary_key()
    }

    fn dictionary_key(&self) -> (r: String) {
        let joined = self.0.dictionary_key();
        joined
    }
}

impl<T1: DictionaryKey, T2: DictionaryKey> DictionaryKey for (T1, T2) {
    open spec fn spec_dictionary_key(&self) -> Seq<char> {
        spec_joined(self.0.spec_dictionary_key(), self.1.spec_dictionary_key())
    }

    fn dictionary_key(&self) -> (r: String) {
        let joined = self.0.dictionary_key();
        let part = self.1.dictionary_key();
        let joined = join_keys(joined, part.as_str());
        joined
    }
}

impl<T1: DictionaryKey, T2: DictionaryKey, T3: DictionaryKey> DictionaryKey for (T1, T2, T3) {
    open spec fn spec_dictionary_key(&self) -> Seq<char> {
        spec_joined(spec_joined(self.0.spec_dictionary_key(), self.1.spec_dictionary_key()), self.2.spec_dictionary_key())
    }

    fn dictionary_key(&self) -> (r: String) {
        let joined = self.0.dictionary_key();
        let part = self.1.dictionary_key();
        let joined = join_keys(joined, part.as_str());
        let part = self.2.dictionary_key();
        let joined = join_keys(joined, part.as_str());
        joined
    }
}

impl<T1: DictionaryKey, T2: DictionaryKey, T3: DictionaryKey, T4: DictionaryKey> DictionaryKey for (T1, T2, T3, T4) {
    open spec fn spec_dictionary_key(&self) -> Seq<char> {
        spec_joined(spec_joined(spec_joined(self.0.spec_dictionary_key(), self.1.spec_dictionary_key()), self.2.spec_dictionary_key()), self.3.spec_dictionary_key())
    }

    fn dictionary_key(&self) -> (r: String) {
        let joined = self.0.dictionary_key();
        let part = self.1.dictionary_key();
        let joined = join_keys(joined, part.as_str());
        let part = self.2.dictionary_key();
        let joined = join_keys(joined, part.as_str());
        let part = self.3.dictionary_key();
        let joined = join_keys(joined, part.as_str());
        joined
    }
}

impl<T1: DictionaryKey, T2: DictionaryKey, T3: DictionaryKey, T4: DictionaryKey, T5: DictionaryKey> DictionaryKey for (T1, T2, T3, T4, T5) {
    open spec fn spec_dictionary_key(&self) -> Seq<char> {
        spec_joined(spec_joined(spec_joined(spec_joined(self.0.spec_dictionary_key(), self.1.spec_dictionary_key()), self.2.spec_dictionary_key()), self.3.spec_dictionary_key()), self.4.spec_dictionary_key())
    }

    fn dictionary_key(&self) -> (r: String) {
        let joined = self.0.dictionary_key();
        let part = self.1.dictionary_key();
        let joined = join_keys(joined, part.as_str());
        let part = self.2.dictionary_key();
        let joined = join_keys(joined, part.as_str());
        let part = self.3.dictionary_key();
        let joined = join_keys(joined, part.as_str());
        let part = self.4.dictionary_key();
        let joined = join_keys(joined, part.as_str());
        joined
    }
}

impl<T1: DictionaryKey, T2: DictionaryKey, T3: DictionaryKey, T4: DictionaryKey, T5: DictionaryKey, T6: DictionaryKey> DictionaryKey for (T1, T2, T3, T4, T5, T6) {
    open spec fn spec_dictionary_key(&self) -> Seq<char> {
        spec_joined(spec_joined(spec_joined(spec_joined(spec_joined(self.0.spec_dictionary_key(), self.1.spec_dictionary_key()), self.2.spec_dictionary_key()), self.3.spec_dictionary_key()), self.4.spec_dictionary_key()), self.5.spec_dictionary_key())
    }

    fn dictionary_key(&self) -> (r: String) {
        let joined = self.0.dictionary_key();
        let part = self.1.dictionary_key();
        let joined = join_keys(joined, part.as_str());
        let part = self.2.dictionary_key();
        let joined = join_keys(joined, part.as_str());
        let part = self.3.dictionary_key();
        let joined = join_keys(joined, part.as_str());
        let part = self.4.dictionary_key();
        let joined = join_keys(joined, part.as_str());
        let part = self.5.dictionary_key();
        let joined = join_keys(joined, part.as_str());
        joined
    }
}

impl<T1: DictionaryKey, T2: DictionaryKey, T3: DictionaryKey, T4: DictionaryKey, T5: DictionaryKey, T6: DictionaryKey, T7: DictionaryKey> DictionaryKey for (T1, T2, T3, T4, T5, T6, T7) {
    open spec fn spec_dictionary_key(&self) -> Seq<char> {
        spec_joined(spec_joined(spec_joined(spec_joined(spec_joined(spec_joined(self.0.spec_dictionary_key(), self.1.spec_dictionary_key()), self.2.spec_dictionary_key()), self.3.spec_dictionary_key()), self.4.spec_dictionary_key()), self.5.spec_dictionary_key()), self.6.spec_dictionary_key())
    }

    fn dictionary_key(&self) -> (r: String) {
        let joined = self.0.dictionary_key();
        let part = self.1.dictionary_key();
        let joined = join_keys(joined, part.as_str());
        let part = self.2.dictionary_key();
        let joined = join_keys(joined, part.as_str());
        let part = self.3.dictionary_key();
        let joined = join_keys(joined, part.as_str());
        let part = self.4.dictionary_key();
        let joined = join_keys(joined, part.as_str());
        let part = self.5.dictionary_key();
        let joined = join_keys(joined, part.as_str());
        let part = self.6.dictionary_key();
        let joined = join_keys(joined, part.as_str());
        joined
    }
}

impl<T1: DictionaryKey, T2: DictionaryKey, T3: DictionaryKey, T4: DictionaryKey, T5: DictionaryKey, T6: DictionaryKey, T7: DictionaryKey, T8: DictionaryKey> DictionaryKey for (T1, T2, T3, T4, T5, T6, T7, T8) {
    open spec fn spec_dictionary_key(&self) -> Seq<char> {
        spec_joined(spec_joined(spec_joined(spec_joined(spec_joined(spec_joined(spec_joined(self.0.spec_dictionary_key(), self.1.spec_dictionary_key()), self.2.spec_dictionary_key()), self.3.spec_dictionary_key()), self.4.spec_dictionary_key()), self.5.spec_dictionary_key()), self.6.spec_dictionary_key()), self.7.spec_dictionary_key())
    }

    fn dictionary_key(&self) -> (r: String) {
        let joined = self.0.dictionary_key();
        let part = self.1.dictionary_key();
        let joined = join_keys(joined, part.as_str());
        let part = self.2.dictionary_key();
        let joined = join_keys(joined, part.as_str());
        let part = self.3.dictionary_key();
        let joined = join_keys(joined, part.as_str());
        let part = self.4.dictionary_key();
        let joined = join_keys(joined, part.as_str());
        let part = self.5.dictionary_key();
        let joined = join_keys(joined, part.as_str());
        let part = self.6.dictionary_key();
        let joined = join_keys(joined, part.as_str());
        let part = self.7.dictionary_key();
        let joined = join_keys(joined, part.as_str());
        joined
    }
}

impl<T1: DictionaryKey, T2: DictionaryKey, T3: DictionaryKey, T4: DictionaryKey, T5: DictionaryKey, T6: DictionaryKey, T7: DictionaryKey, T8: DictionaryKey, T9: DictionaryKey> DictionaryKey for (T1, T2, T3, T4, T5, T6, T7, T8, T9) {
    open spec fn spec_dictionary_key(&self) -> Seq<char> {
        spec_joined(spec_joined(spec_joined(spec_joined(spec_joined(spec_joined(spec_joined(spec_joined(self.0.spec_dictionary_key(), self.1.spec_dictionary_key()), self.2.spec_dictionary_key()), self.3.spec_dictionary_key()), self.4.spec_dictionary_key()), self.5.spec_dictionary_key()), self.6.spec_dictionary_key()), self.7.spec_dictionary_key()), self.8.spec_dictionary_key())
    }

    fn dictionary_key(&self) -> (r: String) {
        let joined = self.0.dictionary_key();
        let part = self.1.dictionary_key();
        let joined = join_keys(joined, part.as_str());
        let part = self.2.dictionary_key();
        let joined = join_keys(joined, part.as_str());
        let part = self.3.dictionary_key();
        let joined = join_keys(joined, part.as_str());
        let part = self.4.dictionary_key();
        let joined = join_keys(joined, part.as_str());
        let part = self.5.dictionary_key();
        let joined = join_keys(joined, part.as_str());
        let part = self.6.dictionary_key();
        let joined = join_keys(joined, part.as_str());
        let part = self.7.dictionary_key();
        let joined = join_keys(joined, part.as_str());
        let part = self.8.dictionary_key();
        let joined = join_keys(joined, part.as_str());
        joined
    }
}

impl<T1: DictionaryKey, T2: DictionaryKey, T3: DictionaryKey, T4: DictionaryKey, T5: DictionaryKey, T6: DictionaryKey, T7: DictionaryKey, T8: DictionaryKey, T9: DictionaryKey, T10: DictionaryKey> DictionaryKey for (T1, T2, T3, T4, T5, T6, T7, T8, T9, T10) {
    open spec fn spec_dictionary_key(&self) -> Seq<char> {
        spec_joined(spec_joined(spec_joined(spec_joined(spec_joined(spec_joined(spec_joined(spec_joined(spec_joined(self.0.spec_dictionary_key(), self.1.spec_dictionary_key()), self.2.spec_dictionary_key()), self.3.spec_dictionary_key()), self.4.spec_dictionary_key()), self.5.spec_dictionary_key()), self.6.spec_dictionary_key()), self.7.spec_dictionary_key()), self.8.spec_dictionary_key()), self.9.spec_dictionary_key())
    }

    fn dictionary_key(&self) -> (r: String) {
        let joined = self.0.dictionary_key();
        let part = self.1.dictionary_key();
        let joined = join_keys(joined, part.as_str());
        let part = self.2.dictionary_key();
        let joined = join_keys(joined, part.as_str());
        let part = self.3.dictionary_key();
        let joined = join_keys(joined, part.as_str());
        let part = self.4.dictionary_key();
        let joined = join_keys(joined, part.as_str());
        let part = self.5.dictionary_key();
        let joined = join_keys(joined, part.as_str());
        let part = self.6.dictionary_key();
        let joined = join_keys(joined, part.as_str());
        let part = self.7.dictionary_key();
        let joined = join_keys(joined, part.as_str());
        let part = self.8.dictionary_key();
        let joined = join_keys(joined, part.as_str());
        let part = self.9.dictionary_key();
        let joined = join_keys(joined, part.as_str());
        joined
    }
}

/// A mapping from keys to values, kept in the dictionary of a named key.
pub struct Mapping {
    named_key: NamedKey,
}

impl View for Mapping {
    type V = NamedKeyView;

    closed spec fn view(&self) -> NamedKeyView {
        self.named_key@
    }
}

impl Mapping {
    /// The mapping kept under `named_key`.
    pub fn from_named_key(named_key: NamedKey) -> (r: Mapping)
        ensures
            r@ == named_key@,
    {
        Mapping { named_key }
    }

    /// A mapping kept under another named key.
    pub fn bind_to(&self, named_key: NamedKey) -> (r: Mapping)
        ensures
            r@ == named_key@,
    {
        Mapping { named_key }
    }

    /// The named key under which the mapping is kept.
    pub fn named_uref(&self) -> (r: &NamedKey)
        ensures
            r@ == self@,
    {
        &self.named_key
    }

    /// Puts `value` under `key`.
    pub fn insert<K: DictionaryKey>(&mut self, host: &mut Host, key: &K, value: CLValue) -> (r:
        Result<(), ApiError>)
        requires
            old(host)@.active(),
        ensures
            final(self)@ == old(self)@.resolved(old(host)@.top()),
            r == put_dict_outcome(old(self)@, old(host)@, key.spec_dictionary_key()),
            final(host)@ == put_dict_host(
                old(self)@,
                old(host)@,
                key.spec_dictionary_key(),
                value@,
            ),
    {
        let item_key = key.dictionary_key();
        self.named_key.put_dict(host, item_key.as_str(), value)
    }

    /// The bytes of the value under `key`, if there is one.
    pub fn get<K: DictionaryKey>(&mut self, host: &mut Host, key: &K) -> (r: Result<
        Option<Vec<u8>>,
        ApiError,
    >)
        requires
            old(host)@.active(),
            can_get_dict(old(self)@, old(host)@, key.spec_dictionary_key()),
        ensures
            final(self)@ == old(self)@.resolved(old(host)@.top()),
            bytes_outcome_is(
                r,
                get_dict_outcome(old(self)@, old(host)@, key.spec_dictionary_key()),
            ),
            final(host)@ == get_dict_host(old(self)@, old(host)@, key.spec_dictionary_key()),
    {
        let item_key = key.dictionary_key();
        self.named_key.get_dict(host, item_key.as_str())
    }
}

/// A set of keys, kept in the dictionary of a named key.
pub struct KeySet {
    mapping: Mapping,
}

impl View for KeySet {
    type V = NamedKeyView;

    closed spec fn view(&self) -> NamedKeyView {
        self.mapping@
    }
}

/// Whether a lookup found a value, or why it could not be made.
pub open spec fn spec_found(stated: Result<Option<Seq<u8>>, ApiError>) -> Result<bool, ApiError> {
    match stated {
        Ok(found) => Ok(found is Some),
        Err(e) => Err(e),
    }
}

impl KeySet {
    /// The set kept under `named_key`.
    pub fn from_named_key(named_key: NamedKey) -> (r: KeySet)
        ensures
            r@ == named_key@,
    {
        KeySet { mapping: Mapping::from_named_key(named_key) }
    }

    /// Adds `key` to the set.
    pub fn insert<K: DictionaryKey>(&mut self, host: &mut Host, key: &K) -> (r: Result<
        (),
        ApiError,
    >)
        requires
            old(host)@.active(),
        ensures
            final(self)@ == old(self)@.resolved(old(host)@.top()),
            r == put_dict_outcome(old(self)@, old(host)@, key.spec_dictionary_key()),
            final(host)@ == put_dict_host(
                old(self)@,
                old(host)@,
                key.spec_dictionary_key(),
                spec_unit_value(),
            ),
    {
        self.mapping.insert(host, key, CLValue::unit())
    }

    /// Whether `key` is in the set.
    pub fn contains<K: DictionaryKey>(&mut self, host: &mut Host, key: &K) -> (r: Result<
        bool,
        ApiError,
    >)
        requires
            old(host)@.active(),
            can_get_dict(old(self)@, old(host)@, key.spec_dictionary_key()),
        ensures
            final(self)@ == old(self)@.resolved(old(host)@.top()),
            r == spec_found(get_dict_outcome(old(self)@, old(host)@, key.spec_dictionary_key())),
            final(host)@ == get_dict_host(old(self)@, old(host)@, key.spec_dictionary_key()),
    {
        match self.mapping.get(host, key) {
            Ok(found) => Ok(found.is_some()),
            Err(e) => Err(e),
        }
    }
}

/// A vector, kept in the dictionary of a named key: the items under the
/// base-128 form of their index, the length under the item key `length`.
pub struct Vector {
    named_key: NamedKey,
}

impl View for Vector {
    type V = NamedKeyView;

    closed spec fn view(&self) -> NamedKeyView {
        self.named_key@
    }
}

/// The item key of the item at `index`.
pub open spec fn spec_index_key(index: u64) -> Seq<char> {
    spec_bytes_key(spec_u64_to_le_bytes(index))
}

/// The 64-bit number that bytes encode, or why they encode none.
pub open spec fn spec_u64_of(bytes: Seq<u8>) -> Result<u64, ApiError> {
    if bytes.len() < 8 {
        Err(ApiError::EarlyEndOfStream)
    } else if bytes.len() > 8 {
        Err(ApiError::LeftOverBytes)
    } else {
        Ok(spec_u64_from_le_bytes(bytes))
    }
}

/// The length that a lookup of the length key stands for: zero where no
/// length was ever written.
pub open spec fn spec_len_of(stated: Result<Option<Seq<u8>>, ApiError>) -> Result<u64, ApiError> {
    match stated {
        Ok(Some(bytes)) => spec_u64_of(bytes),
        Ok(None) => Ok(0u64),
        Err(e) => Err(e),
    }
}

/// The 64-bit number that bytes encode, or why they encode none.
pub fn u64_of(bytes: &Vec<u8>) -> (r: Result<u64, ApiError>)
    ensures
        r == spec_u64_of(bytes@),
{
    if bytes.len() < 8 {
        Err(ApiError::EarlyEndOfStream)
    } else if bytes.len() > 8 {
        Err(ApiError::LeftOverBytes)
    } else {
        Ok(u64_from_le_bytes(bytes.as_slice()))
    }
}

/// The length of the vector of the named key `nk`, against the host
/// `before`.
pub open spec fn vector_len(nk: NamedKeyView, before: HostView) -> Result<u64, ApiError> {
    spec_len_of(get_dict_outcome(nk, before, VEC_LENGTH_KEY@))
}

/// What a push onto the vector of the named key `nk` answers.
pub open spec fn push_outcome(nk: NamedKeyView, before: HostView, value: CLValueView) -> Result<
    (),
    ApiError,
> {
    let asked = get_dict_host(nk, before, VEC_LENGTH_KEY@);
    let known = nk.resolved(before.top());
    match vector_len(nk, before) {
        Err(e) => Err(e),
        Ok(n) => match put_dict_outcome(known, asked, spec_index_key(n)) {
            Err(e) => Err(e),
            Ok(_) => put_dict_outcome(
                known,
                put_dict_host(known, asked, spec_index_key(n), value),
                VEC_LENGTH_KEY@,
            ),
        },
    }
}

/// The host after a push onto the vector of the named key `nk`: the
/// length was asked for, the item was put under the index that the length
/// gives, and the length was put back, one higher.
pub open spec fn push_host(nk: NamedKeyView, before: HostView, value: CLValueView) -> HostView {
    let asked = get_dict_host(nk, before, VEC_LENGTH_KEY@);
    let known = nk.resolved(before.top());
    match vector_len(nk, before) {
        Err(_) => asked,
        Ok(n) => {
            let filled = put_dict_host(known, asked, spec_index_key(n), value);
            match put_dict_outcome(known, asked, spec_index_key(n)) {
                Err(_) => filled,
                Ok(_) => put_dict_host(
                    known,
                    filled,
                    VEC_LENGTH_KEY@,
                    spec_u64_value((n + 1) as u64),
                ),
            }
        },
    }
}

impl Vector {
    /// The vector kept under `named_key`.
    pub fn from_named_key(named_key: NamedKey) -> (r: Vector)
        ensures
            r@ == named_key@,
    {
        Vector { named_key }
    }

    /// The length of the vector.
    pub fn len(&mut self, host: &mut Host) -> (r: Result<u64, ApiError>)
        requires
            old(host)@.active(),
            can_get_dict(old(self)@, old(host)@, VEC_LENGTH_KEY@),
        ensures
            final(self)@ == old(self)@.resolved(old(host)@.top()),
            r == vector_len(old(self)@, old(host)@),
            final(host)@ == get_dict_host(old(self)@, old(host)@, VEC_LENGTH_KEY@),
    {
        match self.named_key.get_dict(host, VEC_LENGTH_KEY) {
            Ok(Some(bytes)) => u64_of(&bytes),
            Ok(None) => Ok(0),
            Err(e) => Err(e),
        }
    }

    /// Whether the vector has no items.
    pub fn is_empty(&mut self, host: &mut Host) -> (r: Result<bool, ApiError>)
        requires
            old(host)@.active(),
            can_get_dict(old(self)@, old(host)@, VEC_LENGTH_KEY@),
        ensures
            final(self)@ == old(self)@.resolved(old(host)@.top()),
            r == (match vector_len(old(self)@, old(host)@) {
                Ok(n) => Ok::<bool, ApiError>(n == 0),
                Err(e) => Err::<bool, ApiError>(e),
            }),
            final(host)@ == get_dict_host(old(self)@, old(host)@, VEC_LENGTH_KEY@),
    {
        match self.len(host) {
            Ok(n) => Ok(n == 0),
            Err(e) => Err(e),
        }
    }

    /// Writes the length of the vector.
    pub fn set_len(&mut self, host: &mut Host, new_length: u64) -> (r: Result<(), ApiError>)
        requires
            old(host)@.active(),
        ensures
            final(self)@ == old(self)@.resolved(old(host)@.top()),
            r == put_dict_outcome(old(self)@, old(host)@, VEC_LENGTH_KEY@),
            final(host)@ == put_dict_host(
                old(self)@,
                old(host)@,
                VEC_LENGTH_KEY@,
                spec_u64_value(new_length),
            ),
    {
        self.named_key.put_dict(host, VEC_LENGTH_KEY, CLValue::from_u64(new_length))
    }

    /// The bytes of the item at `index`, if there is one.
    pub fn get(&mut self, host: &mut Host, index: u64) -> (r: Result<Option<Vec<u8>>, ApiError>)
        requires
            old(host)@.active(),
            can_get_dict(old(self)@, old(host)@, spec_index_key(index)),
        ensures
            final(self)@ == old(self)@.resolved(old(host)@.top()),
            bytes_outcome_is(r, get_dict_outcome(old(self)@, old(host)@, spec_index_key(index))),
            final(host)@ == get_dict_host(old(self)@, old(host)@, spec_index_key(index)),
    {
        let key = index.dictionary_key();
        self.named_key.get_dict(host, key.as_str())
    }

    /// Puts `value` at `index`.
    pub fn set(&mut self, host: &mut Host, index: u64, value: CLValue) -> (r: Result<
        (),
        ApiError,
    >)
        requires
            old(host)@.active(),
        ensures
            final(self)@ == old(self)@.resolved(old(host)@.top()),
            r == put_dict_outcome(old(self)@, old(host)@, spec_index_key(index)),
            final(host)@ == put_dict_host(
                old(self)@,
                old(host)@,
                spec_index_key(index),
                value@,
            ),
    {
        let key = index.dictionary_key();
        self.named_key.put_dict(host, key.as_str(), value)
    }

    /// Puts `value` behind the last item and writes the new length.
    pub fn push(&mut self, host: &mut Host, value: CLValue) -> (r: Result<(), ApiError>)
        requires
            old(host)@.active(),
            can_get_dict(old(self)@, old(host)@, VEC_LENGTH_KEY@),
            vector_len(old(self)@, old(host)@) is Ok ==> vector_len(
                old(self)@,
                old(host)@,
            ).unwrap() < u64::MAX,
        ensures
            final(self)@ == old(self)@.resolved(old(host)@.top()),
            r == push_outcome(old(self)@, old(host)@, value@),
            final(host)@ == push_host(old(self)@, old(host)@, value@),
    {
        let length = match self.len(host) {
            Ok(n) => n,
            Err(e) => {
                return Err(e);
            },
        };
        let ghost known = self@;
        let ghost asked = host@;
        assert(asked.active()) by {
            lemma_get_keeps_active(old(self)@, old(host)@, VEC_LENGTH_KEY@);
        }
        assert(known.resolved(asked.top()) == known);
        let key = length.dictionary_key();
        match self.named_key.put_dict(host, key.as_str(), value) {
            Ok(_) => {},
            Err(e) => {
                return Err(e);
            },
        }
        assert(host@.active()) by {
            lemma_put_keeps_active(known, asked, spec_index_key(length), value@);
        }
        assert(known.resolved(host@.top()) == known);
        self.set_len(host, length + 1)
    }
}

/// A get from a dictionary leaves the host with its environments.
pub proof fn lemma_get_keeps_active(nk: NamedKeyView, before: HostView, item: Seq<char>)
    requires
        before.active(),
    ensures
        get_dict_host(nk, before, item).active(),
{
}

/// A put into a dictionary leaves the host with its environments.
pub proof fn lemma_put_keeps_active(
    nk: NamedKeyView,
    before: HostView,
    item: Seq<char>,
    value: CLValueView,
)
    requires
        before.active(),
    ensures
        put_dict_host(nk, before, item, value).active(),
{
}

/// A handle on the value stored under the key of a named key.
pub struct TypedURef {
    named_key: NamedKey,
}

impl View for TypedURef {
    type V = NamedKeyView;

    closed spec fn view(&self) -> NamedKeyView {
        self.named_key@
    }
}

impl TypedURef {
    /// The handle on the value under `named_key`.
    pub fn from_named_key(named_key: NamedKey) -> (r: TypedURef)
        ensures
            r@ == named_key@,
    {
        TypedURef { named_key }
    }

    /// The capability address that the name resolves to, if it resolves to
    /// one.
    pub fn uref(&mut self, host: &mut Host) -> (r: Result<Option<URef>, ApiError>)
        requires
            old(host)@.active(),
        ensures
            r == old(self)@.uref_resolution(old(host)@.top()),
            final(self)@ == old(self)@.resolved(old(host)@.top()),
            final(host)@ == old(host)@.with_top(old(self)@.env_after_resolve(old(host)@.top())),
    {
        match self.named_key.get(host) {
            Ok(Some(key)) => Ok(key.into_uref()),
            Ok(None) => Ok(None),
            Err(e) => Err(e),
        }
    }

    /// The bytes of the stored value, or `None` where the name has no key or
    /// the key no value.
    pub fn read(&mut self, host: &mut Host) -> (r: Result<Option<Vec<u8>>, ApiError>)
        requires
            old(host)@.active(),
            old(self)@.target(old(host)@.top()) is Ok ==> old(host)@.top().can_read(
                old(self)@.target(old(host)@.top()).unwrap(),
            ),
        ensures
            final(self)@ == old(self)@.resolved(old(host)@.top()),
            bytes_outcome_is(r, spec_read_outcome(old(self)@, old(host)@)),
            final(host)@ == spec_read_host(old(self)@, old(host)@),
    {
        self.named_key.read(host)
    }

    /// Writes `value` under the key that the name resolves to.
    pub fn write(&mut self, host: &mut Host, value: CLValue) -> (r: Result<(), ApiError>)
        requires
            old(host)@.active(),
        ensures
            final(self)@ == old(self)@.resolved(old(host)@.top()),
            match old(self)@.target(old(host)@.top()) {
                Ok(key) => r is Ok && final(host)@ == old(host)@.with_top(
                    old(self)@.env_after_resolve(old(host)@.top()).spec_write(key, value@),
                ),
                Err(e) => r == Err::<(), ApiError>(e) && final(host)@ == old(host)@.with_top(
                    old(self)@.env_after_resolve(old(host)@.top()),
                ),
            },
    {
        self.named_key.write(host, &value)
    }
}

/// What a read through the named key `nk` answers, against the host
/// `before`.
pub open spec fn spec_read_outcome(nk: NamedKeyView, before: HostView) -> Result<
    Option<Seq<u8>>,
    ApiError,
> {
    match nk.resolution(before.top()) {
        Ok(Some(key)) => match before.top().read_cl_value(key) {
            Some(v) => Ok(Some(v.bytes)),
            None => Ok(None),
        },
        Ok(None) => Ok(None),
        Err(e) => Err(e),
    }
}

/// The host after a read through the named key `nk`.
pub open spec fn spec_read_host(nk: NamedKeyView, before: HostView) -> HostView {
    let env = nk.env_after_resolve(before.top());
    match nk.resolution(before.top()) {
        Ok(Some(key)) => before.with_top(spec_after_read(env, key)),
        _ => before.with_top(env),
    }
}

} // verus!
