//! An environment: the state that one guest invocation runs against.
//!
//! An environment owns the global state store, the named-key table, the
//! dictionaries, the host buffer, the table of arguments, the address
//! counter and the call trace. Each operation of the host is one step of
//! that state, stated here over the environment's view.

use vstd::prelude::*;
use crate::address::{increment, le_limit, le_value};
use crate::assoc::AssocList;
use crate::error::ApiError;
use crate::trace::{HostFunction, HostFunctionView};
use crate::types::{
    copy_bytes, spec_unit_value, spec_uref_value, spec_zero_balance, Addr, CLValue, CLValueView,
    Key, StoredValue, StoredValueView, URef, DICTIONARY_ITEM_KEY_MAX_LENGTH, READ_ADD_WRITE,
};
use crate::codec::utf8_len;

verus! {

/// What an environment holds, seen from a contract.
pub struct EnvView {
    /// The number of the address that was handed out last.
    pub counter: nat,
    /// The global state store.
    pub database: Map<Key, StoredValueView>,
    /// The arguments of the invocation, by name.
    pub args: Map<Seq<char>, CLValueView>,
    /// The named-key table.
    pub named_keys: Map<Seq<char>, Key>,
    /// The value that waits in the host buffer, if one does.
    pub host_buffer: Option<CLValueView>,
    /// The dictionaries, by the address of their seed.
    pub dictionaries: Map<Seq<u8>, Map<Seq<char>, CLValueView>>,
    /// The operations recorded since the trace was last drained.
    pub trace: Seq<HostFunctionView>,
}

impl EnvView {
    /// The environment after `f` was recorded.
    pub open spec fn traced(self, f: HostFunctionView) -> EnvView {
        EnvView { trace: self.trace.push(f), ..self }
    }

    /// The environment with `value` stored under `key`.
    pub open spec fn stored(self, key: Key, value: StoredValueView) -> EnvView {
        EnvView { database: self.database.insert(key, value), ..self }
    }

    /// The environment with `value` in the host buffer.
    pub open spec fn staged(self, value: CLValueView) -> EnvView {
        EnvView { host_buffer: Some(value), ..self }
    }

    /// The environment with an empty host buffer.
    pub open spec fn drained(self) -> EnvView {
        EnvView { host_buffer: None, ..self }
    }

    /// The environment after one more address was handed out.
    pub open spec fn minted(self) -> EnvView {
        EnvView { counter: self.counter + 1, ..self }
    }

    /// Whether the length of the staged bytes, if any are staged, is one
    /// that a caller can ask for.
    pub open spec fn buffer_fits(self) -> bool {
        self.host_buffer is Some ==> self.host_buffer.unwrap().bytes.len() <= usize::MAX
    }

    /// Whether the counter can hand out another address.
    pub open spec fn can_mint(self) -> bool {
        self.counter + 1 < le_limit(32)
    }

    /// Whether `uref` is what the counter hands out next: the number after
    /// the last one, with every right.
    pub open spec fn mints(self, uref: URef) -> bool {
        le_value(uref.spec_addr()@) == self.counter + 1 && uref.spec_rights() == READ_ADD_WRITE
    }

    /// The capability address that the counter hands out next.
    pub open spec fn next_uref(self) -> URef {
        choose|u: URef| self.mints(u)
    }

    /// The counter hands out one capability address and no other.
    pub proof fn lemma_mints_unique(self, a: URef, b: URef)
        requires
            self.mints(a),
            self.mints(b),
        ensures
            a == b,
    {
        broadcast use vstd::array::group_array_axioms;

        crate::address::lemma_le_value_injective(a.spec_addr()@, b.spec_addr()@);
        assert(a.spec_addr() =~= b.spec_addr());
        URef::lemma_same_parts(a, b);
    }

    /// What is stored under `key`, if anything is.
    pub open spec fn read(self, key: Key) -> Option<StoredValueView> {
        if self.database.contains_key(key) {
            Some(self.database[key])
        } else {
            None
        }
    }

    /// The typed value stored under `key`, if one is.
    pub open spec fn read_cl_value(self, key: Key) -> Option<CLValueView> {
        match self.read(key) {
            Some(StoredValueView::CLValue(v)) => Some(v),
            _ => None,
        }
    }

    /// Whether a read of `key` can be served: the value under it, if there is
    /// one, is a typed value, and the host buffer is free to take it.
    pub open spec fn can_read(self, key: Key) -> bool {
        self.database.contains_key(key) ==> self.database[key] is CLValue
            && self.host_buffer is None
    }

    /// The environment after a read of `key`.
    pub open spec fn spec_read_value(self, key: Key) -> EnvView {
        let traced = self.traced(HostFunctionView::Plain(HostFunction::CasperReadValue));
        match self.read_cl_value(key) {
            Some(v) => traced.staged(v),
            None => traced,
        }
    }

    /// What a read of `key` answers: the length of the value that it staged,
    /// or that nothing is there.
    pub open spec fn spec_read_outcome(self, key: Key) -> Result<usize, ApiError> {
        match self.read_cl_value(key) {
            Some(v) => Ok(v.bytes.len() as usize),
            None => Err(ApiError::ValueNotFound),
        }
    }

    /// The environment after `value` was written under `key`.
    pub open spec fn spec_write(self, key: Key, value: CLValueView) -> EnvView {
        self.traced(HostFunctionView::Plain(HostFunction::CasperWrite)).stored(
            key,
            StoredValueView::CLValue(value),
        )
    }

    /// The environment after `value` was stored under the new capability
    /// address `uref`.
    pub open spec fn spec_new_uref(self, uref: URef, value: CLValueView) -> EnvView {
        self.traced(HostFunctionView::Plain(HostFunction::CasperNewUref)).minted().stored(
            Key::URef(uref),
            StoredValueView::CLValue(value),
        )
    }

    /// The environment after the host buffer was read.
    pub open spec fn spec_read_host_buffer(self) -> EnvView {
        self.drained()
    }

    /// What a read of the host buffer answers: the staged bytes, or that
    /// nothing is staged.
    pub open spec fn spec_host_buffer_outcome(self) -> Result<Seq<u8>, ApiError> {
        match self.host_buffer {
            Some(v) => Ok(v.bytes),
            None => Err(ApiError::HostBufferEmpty),
        }
    }
}

/// The views of a sequence of trace entries.
pub open spec fn trace_views(s: Seq<HostFunction>) -> Seq<HostFunctionView> {
    s.map_values(|f: HostFunction| f@)
}

/// An environment.
pub struct Env {
    address_generator: Addr,
    database: AssocList<Key, StoredValue>,
    args: AssocList<String, CLValue>,
    named_keys: AssocList<String, Key>,
    host_buffer: Option<CLValue>,
    dictionaries: AssocList<Addr, AssocList<String, CLValue>>,
    trace: Vec<HostFunction>,
}

impl View for Env {
    type V = EnvView;

    closed spec fn view(&self) -> EnvView {
        EnvView {
            counter: le_value(self.address_generator@),
            database: self.database@,
            args: self.args@,
            named_keys: self.named_keys@,
            host_buffer: match self.host_buffer {
                Some(v) => Some(v@),
                None => None,
            },
            dictionaries: self.dictionaries@,
            trace: trace_views(self.trace@),
        }
    }
}

impl Env {
    /// Records an operation in the call trace.
    fn record(&mut self, f: HostFunction)
        ensures
            final(self)@ == old(self)@.traced(f@),
    {
        self.trace.push(f);
        assert(trace_views(self.trace@) =~= trace_views(old(self).trace@).push(f@));
    }

    /// Stores a value under a key.
    fn store(&mut self, key: Key, value: StoredValue)
        ensures
            final(self)@ == old(self)@.stored(key, value@),
    {
        self.database.insert(key, value);
    }

    /// Hands out the next address: the number after the last one, lowest
    /// byte first, padded with zeros to the full width.
    pub fn next_address(&mut self) -> (r: Addr)
        requires
            old(self)@.can_mint(),
        ensures
            final(self)@ == old(self)@.minted(),
            le_value(r@) == old(self)@.counter + 1,
    {
        match increment(&self.address_generator) {
            Some(next) => {
                self.address_generator = next;
                next
            },
            None => self.address_generator,
        }
    }

    /// Whether the counter can hand out another address.
    pub fn can_mint(&self) -> (r: bool)
        ensures
            r == self@.can_mint(),
    {
        increment(&self.address_generator).is_some()
    }

    /// Puts a value into the host buffer. Staging while a value waits there
    /// is a fault of the caller.
    pub fn stage(&mut self, value: CLValue)
        requires
            old(self)@.host_buffer is None,
        ensures
            final(self)@ == old(self)@.staged(value@),
    {
        self.host_buffer = Some(value);
    }

    /// Whether a value waits in the host buffer.
    pub fn has_staged(&self) -> (r: bool)
        ensures
            r == (self@.host_buffer is Some),
    {
        self.host_buffer.is_some()
    }

    /// The length of the bytes that wait in the host buffer, if any do.
    pub fn staged_len(&self) -> (r: Option<usize>)
        ensures
            r is Some <==> self@.host_buffer is Some,
            r is Some ==> r.unwrap() == self@.host_buffer.unwrap().bytes.len(),
    {
        match &self.host_buffer {
            Some(v) => Some(v.len()),
            None => None,
        }
    }

    /// Takes the bytes out of the host buffer and leaves it empty. With
    /// nothing staged the answer is an error; to ask for another length than
    /// the one that is staged is a fault of the caller.
    pub fn read_host_buffer(&mut self, dest_size: usize) -> (r: Result<Vec<u8>, ApiError>)
        requires
            old(self)@.host_buffer is Some ==> old(self)@.host_buffer.unwrap().bytes.len()
                == dest_size,
        ensures
            final(self)@ == old(self)@.spec_read_host_buffer(),
            match old(self)@.spec_host_buffer_outcome() {
                Ok(bytes) => r is Ok && r.unwrap()@ == bytes,
                Err(e) => r == Err::<Vec<u8>, ApiError>(e),
            },
    {
        match self.host_buffer.take() {
            Some(value) => Ok(value.into_bytes()),
            None => Err(ApiError::HostBufferEmpty),
        }
    }

    /// Whether anything is stored under `key`, and whether it is a typed
    /// value.
    pub fn peek(&self, key: &Key) -> (r: Option<&StoredValue>)
        ensures
            r is Some <==> self@.read(*key) is Some,
            r is Some ==> r.unwrap()@ == self@.read(*key).unwrap(),
    {
        self.database.get(key)
    }

    /// Reads the value under `key`: stages it in the host buffer and answers
    /// with the length of its bytes, or answers that nothing is there.
    pub fn read_value(&mut self, key: &Key) -> (r: Result<usize, ApiError>)
        requires
            old(self)@.can_read(*key),
        ensures
            final(self)@ == old(self)@.spec_read_value(*key),
            r == old(self)@.spec_read_outcome(*key),
            r is Ok ==> final(self)@.buffer_fits(),
    {
        self.record(HostFunction::CasperReadValue);
        let found: Option<CLValue> = match self.database.get(key) {
            Some(StoredValue::CLValue(v)) => Some(v.duplicate()),
            _ => None,
        };
        match found {
            Some(value) => {
                let n = value.len();
                self.host_buffer = Some(value);
                Ok(n)
            },
            None => Err(ApiError::ValueNotFound),
        }
    }

    /// Writes `value` under `key`, in place of whatever was there.
    pub fn write(&mut self, key: Key, value: CLValue)
        ensures
            final(self)@ == old(self)@.spec_write(key, value@),
    {
        self.record(HostFunction::CasperWrite);
        self.store(key, StoredValue::CLValue(value));
    }

    /// Stores `value` under a new capability address and answers with that
    /// address.
    pub fn new_uref(&mut self, value: CLValue) -> (r: URef)
        requires
            old(self)@.can_mint(),
        ensures
            old(self)@.mints(r),
            r == old(self)@.next_uref(),
            final(self)@ == old(self)@.spec_new_uref(r, value@),
    {
        self.record(HostFunction::CasperNewUref);
        let uref = URef::with_all_rights(self.next_address());
        proof {
            assert(old(self)@.mints(uref));
            old(self)@.lemma_mints_unique(uref, old(self)@.next_uref());
        }
        self.store(Key::URef(uref), StoredValue::CLValue(value));
        uref
    }
}

impl EnvView {
    /// The key registered under `name`, if one is.
    pub open spec fn key_of(self, name: Seq<char>) -> Option<Key> {
        if self.named_keys.contains_key(name) {
            Some(self.named_keys[name])
        } else {
            None
        }
    }

    /// The environment after the key under `name` was asked for.
    pub open spec fn spec_get_key(self, name: Seq<char>) -> EnvView {
        self.traced(HostFunctionView::GetKey(name))
    }

    /// The environment after it was asked whether `name` is registered.
    pub open spec fn spec_has_key(self, name: Seq<char>) -> EnvView {
        self.traced(HostFunctionView::HasKey(name))
    }

    /// The environment after `key` was registered under `name`.
    pub open spec fn spec_put_key(self, name: Seq<char>, key: Key) -> EnvView {
        EnvView {
            named_keys: self.named_keys.insert(name, key),
            ..self.traced(HostFunctionView::PutKey(name, key))
        }
    }

    /// The environment after `name` was taken out of the table.
    pub open spec fn spec_remove_key(self, name: Seq<char>) -> EnvView {
        EnvView {
            named_keys: self.named_keys.remove(name),
            ..self.traced(HostFunctionView::RemoveKey(name))
        }
    }

    /// The environment after a purse was created under the new capability
    /// address `uref`: the unit value under the address, a zero balance
    /// under the balance key of the same address.
    pub open spec fn spec_create_purse(self, uref: URef) -> EnvView {
        self.traced(HostFunctionView::Plain(HostFunction::CasperCreatePurse)).minted().stored(
            Key::URef(uref),
            StoredValueView::CLValue(spec_unit_value()),
        ).stored(Key::Balance(uref.spec_addr()), StoredValueView::CLValue(spec_zero_balance()))
    }

    /// The environment after the size of an argument was asked for.
    pub open spec fn spec_get_named_arg_size(self) -> EnvView {
        self.traced(HostFunctionView::Plain(HostFunction::CasperGetNamedArgSize))
    }

    /// What asking for the size of the argument `name` answers.
    pub open spec fn spec_arg_size_outcome(self, name: Seq<char>) -> Result<usize, ApiError> {
        if self.args.contains_key(name) {
            Ok(self.args[name].bytes.len() as usize)
        } else {
            Err(ApiError::MissingArgument)
        }
    }

    /// The environment after an argument was asked for.
    pub open spec fn spec_get_named_arg(self) -> EnvView {
        self.traced(HostFunctionView::Plain(HostFunction::CasperGetNamedArg))
    }

    /// What asking for the argument `name` answers, with room for
    /// `dest_size` bytes.
    pub open spec fn spec_arg_outcome(self, name: Seq<char>, dest_size: usize) -> Result<
        Seq<u8>,
        ApiError,
    > {
        if !self.args.contains_key(name) {
            Err(ApiError::MissingArgument)
        } else if self.args[name].bytes.len() > dest_size {
            Err(ApiError::BufferTooSmall)
        } else {
            Ok(self.args[name].bytes)
        }
    }

    /// Whether a dictionary is registered under the seed address `addr`.
    pub open spec fn has_dictionary(self, addr: Seq<u8>) -> bool {
        self.dictionaries.contains_key(addr)
    }

    /// The environment with a dictionary registered under `addr`: the one
    /// that was there, or an empty one.
    pub open spec fn registered(self, addr: Seq<u8>) -> EnvView {
        if self.dictionaries.contains_key(addr) {
            self
        } else {
            EnvView { dictionaries: self.dictionaries.insert(addr, Map::empty()), ..self }
        }
    }

    /// The environment after a dictionary was created under the new seed
    /// `uref`: the unit value under the seed, a dictionary registered under
    /// its address, and the seed itself in the host buffer.
    pub open spec fn spec_new_dictionary(self, uref: URef) -> EnvView {
        self.minted().stored(
            Key::URef(uref),
            StoredValueView::CLValue(spec_unit_value()),
        ).registered(uref.spec_addr()@).staged(spec_uref_value(uref))
    }

    /// What putting a value under `item` into the dictionary of `addr`
    /// answers: a seed without a dictionary is refused whatever the item
    /// key, and in a dictionary an item key that is too long.
    pub open spec fn spec_dictionary_put_outcome(self, addr: Seq<u8>, item: Seq<char>) -> Result<
        (),
        ApiError,
    > {
        if !self.dictionaries.contains_key(addr) {
            Err(ApiError::DictionaryNotFound)
        } else if item_key_too_long(item) {
            Err(ApiError::DictionaryItemKeyExceedsLength)
        } else {
            Ok(())
        }
    }

    /// The environment after a value was put under `item` into the
    /// dictionary of `addr`: unchanged where the put is refused.
    pub open spec fn spec_dictionary_put(
        self,
        addr: Seq<u8>,
        item: Seq<char>,
        value: CLValueView,
    ) -> EnvView {
        if self.spec_dictionary_put_outcome(addr, item) is Ok {
            EnvView {
                dictionaries: self.dictionaries.insert(
                    addr,
                    self.dictionaries[addr].insert(item, value),
                ),
                ..self
            }
        } else {
            self
        }
    }

    /// The value under `item` in the dictionary of `addr`, or why there is
    /// none to hand out: first for want of a dictionary, then for an item
    /// key that is too long, then for want of the item.
    pub open spec fn spec_dictionary_item(self, addr: Seq<u8>, item: Seq<char>) -> Result<
        CLValueView,
        ApiError,
    > {
        if !self.dictionaries.contains_key(addr) {
            Err(ApiError::DictionaryNotFound)
        } else if item_key_too_long(item) {
            Err(ApiError::DictionaryItemKeyExceedsLength)
        } else if !self.dictionaries[addr].contains_key(item) {
            Err(ApiError::ValueNotFound)
        } else {
            Ok(self.dictionaries[addr][item])
        }
    }

    /// Whether a get of `item` from the dictionary of `addr` can be served:
    /// where there is a value to stage, the host buffer is free.
    pub open spec fn can_dictionary_get(self, addr: Seq<u8>, item: Seq<char>) -> bool {
        self.spec_dictionary_item(addr, item) is Ok ==> self.host_buffer is None
    }

    /// The environment after a get of `item` from the dictionary of `addr`.
    pub open spec fn spec_dictionary_get(self, addr: Seq<u8>, item: Seq<char>) -> EnvView {
        match self.spec_dictionary_item(addr, item) {
            Ok(v) => self.staged(v),
            Err(_) => self,
        }
    }

    /// What a get of `item` from the dictionary of `addr` answers: the
    /// length of the value that it staged, or why there is none.
    pub open spec fn spec_dictionary_get_outcome(self, addr: Seq<u8>, item: Seq<char>) -> Result<
        usize,
        ApiError,
    > {
        match self.spec_dictionary_item(addr, item) {
            Ok(v) => Ok(v.bytes.len() as usize),
            Err(e) => Err(e),
        }
    }

    /// The environment with an empty trace.
    pub open spec fn untraced(self) -> EnvView {
        EnvView { trace: Seq::empty(), ..self }
    }

    /// A fresh environment: nothing stored, nothing registered, nothing
    /// staged, nothing recorded, and the counter at zero.
    pub open spec fn fresh() -> EnvView {
        EnvView {
            counter: 0,
            database: Map::empty(),
            args: Map::empty(),
            named_keys: Map::empty(),
            host_buffer: None,
            dictionaries: Map::empty(),
            trace: Seq::empty(),
        }
    }
}

/// Whether an item key is longer than a dictionary takes.
pub open spec fn item_key_too_long(item: Seq<char>) -> bool {
    vstd::utf8::encode_utf8(item).len() > DICTIONARY_ITEM_KEY_MAX_LENGTH
}

impl Env {
    /// The key registered under `name`, if one is.
    pub fn get_key(&mut self, name: &String) -> (r: Option<Key>)
        ensures
            final(self)@ == old(self)@.spec_get_key(name@),
            r == old(self)@.key_of(name@),
    {
        self.record(HostFunction::CasperGetKey(name.clone()));
        match self.named_keys.get(name) {
            Some(key) => Some(*key),
            None => None,
        }
    }

    /// Whether a key is registered under `name`.
    pub fn has_key(&mut self, name: &String) -> (r: bool)
        ensures
            final(self)@ == old(self)@.spec_has_key(name@),
            r == old(self)@.named_keys.contains_key(name@),
    {
        self.record(HostFunction::CasperHasKey(name.clone()));
        self.named_keys.contains_key(name)
    }

    /// Registers `key` under `name`, in place of whatever was there.
    pub fn put_key(&mut self, name: String, key: Key)
        ensures
            final(self)@ == old(self)@.spec_put_key(name@, key),
    {
        self.record(HostFunction::CasperPutKey(name.clone(), key));
        self.named_keys.insert(name, key);
    }

    /// Takes `name` out of the named-key table.
    pub fn remove_key(&mut self, name: &String)
        ensures
            final(self)@ == old(self)@.spec_remove_key(name@),
    {
        self.record(HostFunction::CasperRemoveKey(name.clone()));
        self.named_keys.remove(name);
    }

    /// Creates a purse: a new capability address with the unit value under
    /// it and a zero balance beside it.
    pub fn create_purse(&mut self) -> (r: URef)
        requires
            old(self)@.can_mint(),
        ensures
            old(self)@.mints(r),
            r == old(self)@.next_uref(),
            final(self)@ == old(self)@.spec_create_purse(r),
    {
        self.record(HostFunction::CasperCreatePurse);
        let uref = URef::with_all_rights(self.next_address());
        proof {
            assert(old(self)@.mints(uref));
            old(self)@.lemma_mints_unique(uref, old(self)@.next_uref());
        }
        self.store(Key::URef(uref), StoredValue::CLValue(CLValue::unit()));
        self.store(Key::Balance(uref.addr()), StoredValue::CLValue(CLValue::zero_balance()));
        uref
    }

    /// The length of the argument `name`, or that it is missing.
    pub fn get_named_arg_size(&mut self, name: &String) -> (r: Result<usize, ApiError>)
        ensures
            final(self)@ == old(self)@.spec_get_named_arg_size(),
            r == old(self)@.spec_arg_size_outcome(name@),
    {
        self.record(HostFunction::CasperGetNamedArgSize);
        match self.args.get(name) {
            Some(value) => Ok(value.len()),
            None => Err(ApiError::MissingArgument),
        }
    }

    /// The bytes of the argument `name`, where the caller has room for
    /// them.
    pub fn get_named_arg(&mut self, name: &String, dest_size: usize) -> (r: Result<
        Vec<u8>,
        ApiError,
    >)
        ensures
            final(self)@ == old(self)@.spec_get_named_arg(),
            match old(self)@.spec_arg_outcome(name@, dest_size) {
                Ok(bytes) => r is Ok && r.unwrap()@ == bytes,
                Err(e) => r == Err::<Vec<u8>, ApiError>(e),
            },
    {
        self.record(HostFunction::CasperGetNamedArg);
        match self.args.get(name) {
            Some(value) => {
                if value.len() > dest_size {
                    Err(ApiError::BufferTooSmall)
                } else {
                    Ok(copy_bytes(value.inner_bytes()))
                }
            },
            None => Err(ApiError::MissingArgument),
        }
    }

    /// Creates a dictionary: mints its seed, stores the unit value under
    /// it, registers the dictionary and stages the seed.
    pub fn new_dictionary(&mut self) -> (r: URef)
        requires
            old(self)@.can_mint(),
            old(self)@.host_buffer is None,
        ensures
            old(self)@.mints(r),
            r == old(self)@.next_uref(),
            final(self)@ == old(self)@.spec_new_dictionary(r),
    {
        let uref = URef::with_all_rights(self.next_address());
        proof {
            assert(old(self)@.mints(uref));
            old(self)@.lemma_mints_unique(uref, old(self)@.next_uref());
        }
        self.store(Key::URef(uref), StoredValue::CLValue(CLValue::unit()));
        let seed = uref.addr();
        if !self.dictionaries.contains_key(&seed) {
            self.dictionaries.insert(seed, AssocList::new());
        }
        self.host_buffer = Some(CLValue::from_uref(&uref));
        uref
    }

    /// Puts `value` under `item_key` into the dictionary of the seed
    /// address `addr`. A key that is too long, or a seed without a
    /// dictionary, is answered with an error, and nothing changes.
    pub fn dictionary_put(&mut self, addr: &Addr, item_key: String, value: CLValue) -> (r: Result<
        (),
        ApiError,
    >)
        ensures
            r == old(self)@.spec_dictionary_put_outcome(addr@, item_key@),
            final(self)@ == old(self)@.spec_dictionary_put(addr@, item_key@, value@),
    {
        if !self.dictionaries.contains_key(addr) {
            return Err(ApiError::DictionaryNotFound);
        }
        if utf8_len(item_key.as_str()) > DICTIONARY_ITEM_KEY_MAX_LENGTH {
            return Err(ApiError::DictionaryItemKeyExceedsLength);
        }
        match self.dictionaries.remove(addr) {
            None => Err(ApiError::DictionaryNotFound),
            Some(taken) => {
                let mut dictionary = taken;
                dictionary.insert(item_key, value);
                let ghost filled = dictionary@;
                self.dictionaries.insert(*addr, dictionary);
                assert(self.dictionaries@ =~= old(self).dictionaries@.insert(addr@, filled));
                Ok(())
            },
        }
    }

    /// Whether a get of `item_key` from the dictionary of `addr` can be
    /// served: where there is a value to stage, the host buffer is free.
    pub fn can_dictionary_get(&self, addr: &Addr, item_key: &String) -> (r: bool)
        ensures
            r == self@.can_dictionary_get(addr@, item_key@),
    {
        if self.host_buffer.is_none() {
            return true;
        }
        match self.dictionaries.get(addr) {
            None => true,
            Some(dictionary) => {
                if utf8_len(item_key.as_str()) > DICTIONARY_ITEM_KEY_MAX_LENGTH {
                    true
                } else {
                    !dictionary.contains_key(item_key)
                }
            },
        }
    }

    /// Gets the value under `item_key` from the dictionary of the seed
    /// address `addr`: stages it and answers with the length of its bytes,
    /// or answers why there is none.
    pub fn dictionary_get(&mut self, addr: &Addr, item_key: &String) -> (r: Result<
        usize,
        ApiError,
    >)
        requires
            old(self)@.can_dictionary_get(addr@, item_key@),
        ensures
            r == old(self)@.spec_dictionary_get_outcome(addr@, item_key@),
            final(self)@ == old(self)@.spec_dictionary_get(addr@, item_key@),
            r is Ok ==> final(self)@.buffer_fits(),
    {
        let found: Result<CLValue, ApiError> = match self.dictionaries.get(addr) {
            None => Err(ApiError::DictionaryNotFound),
            Some(dictionary) => {
                if utf8_len(item_key.as_str()) > DICTIONARY_ITEM_KEY_MAX_LENGTH {
                    Err(ApiError::DictionaryItemKeyExceedsLength)
                } else {
                    match dictionary.get(item_key) {
                        None => Err(ApiError::ValueNotFound),
                        Some(value) => Ok(value.duplicate()),
                    }
                }
            },
        };
        match found {
            Ok(value) => {
                let n = value.len();
                self.host_buffer = Some(value);
                Ok(n)
            },
            Err(e) => Err(e),
        }
    }

    /// Hands out the call trace and leaves it empty.
    pub fn trace(&mut self) -> (r: Vec<HostFunction>)
        ensures
            trace_views(r@) == old(self)@.trace,
            final(self)@ == old(self)@.untraced(),
    {
        let mut out: Vec<HostFunction> = Vec::new();
        std::mem::swap(&mut self.trace, &mut out);
        assert(trace_views(self.trace@) =~= Seq::<HostFunctionView>::empty());
        out
    }

    /// A copy of the named-key table.
    pub fn named_keys(&self) -> (r: AssocList<String, Key>)
        ensures
            r@ == self@.named_keys,
    {
        self.named_keys.duplicate()
    }
}

/// Builds an environment: the state that an invocation starts from.
pub struct EnvBuilder {
    address_generator: Addr,
    database: AssocList<Key, StoredValue>,
    args: AssocList<String, CLValue>,
    named_keys: AssocList<String, Key>,
    dictionaries: AssocList<Addr, AssocList<String, CLValue>>,
}

impl View for EnvBuilder {
    type V = EnvView;

    closed spec fn view(&self) -> EnvView {
        EnvView {
            counter: le_value(self.address_generator@),
            database: self.database@,
            args: self.args@,
            named_keys: self.named_keys@,
            host_buffer: None,
            dictionaries: self.dictionaries@,
            trace: Seq::empty(),
        }
    }
}

impl EnvBuilder {
    /// A builder of a fresh environment.
    pub fn new() -> (r: EnvBuilder)
        ensures
            r@ == EnvView::fresh(),
    {
        let zero: Addr = [0u8; 32];
        proof {
            lemma_zero_value(zero@);
        }
        EnvBuilder {
            address_generator: zero,
            database: AssocList::new(),
            args: AssocList::new(),
            named_keys: AssocList::new(),
            dictionaries: AssocList::new(),
        }
    }

    /// Seeds the address counter: the first address handed out is the
    /// number after `address_generator`.
    pub fn with_address_generator(self, address_generator: Addr) -> (r: EnvBuilder)
        ensures
            r@ == (EnvView { counter: le_value(address_generator@), ..self@ }),
    {
        let mut b = self;
        b.address_generator = address_generator;
        b
    }

    /// Replaces the global state store.
    pub fn with_database(self, database: AssocList<Key, StoredValue>) -> (r: EnvBuilder)
        ensures
            r@ == (EnvView { database: database@, ..self@ }),
    {
        let mut b = self;
        b.database = database;
        b
    }

    /// Replaces the table of arguments.
    pub fn with_args(self, args: AssocList<String, CLValue>) -> (r: EnvBuilder)
        ensures
            r@ == (EnvView { args: args@, ..self@ }),
    {
        let mut b = self;
        b.args = args;
        b
    }

    /// Adds an argument.
    pub fn with_arg(self, name: &str, value: CLValue) -> (r: EnvBuilder)
        ensures
            r@ == (EnvView { args: self@.args.insert(name@, value@), ..self@ }),
    {
        let mut b = self;
        b.args.insert(name.to_owned(), value);
        b
    }

    /// Stores a value in the global state.
    pub fn with_storage(self, key: Key, value: StoredValue) -> (r: EnvBuilder)
        ensures
            r@ == self@.stored(key, value@),
    {
        let mut b = self;
        b.database.insert(key, value);
        b
    }

    /// Replaces the named-key table.
    pub fn with_named_keys(self, named_keys: AssocList<String, Key>) -> (r: EnvBuilder)
        ensures
            r@ == (EnvView { named_keys: named_keys@, ..self@ }),
    {
        let mut b = self;
        b.named_keys = named_keys;
        b
    }

    /// Registers a key under a name.
    pub fn with_named_key(self, name: &str, key: Key) -> (r: EnvBuilder)
        ensures
            r@ == (EnvView { named_keys: self@.named_keys.insert(name@, key), ..self@ }),
    {
        let mut b = self;
        b.named_keys.insert(name.to_owned(), key);
        b
    }

    /// The environment that was described.
    pub fn build(self) -> (r: Env)
        ensures
            r@ == self@,
    {
        let env = Env {
            address_generator: self.address_generator,
            database: self.database,
            args: self.args,
            named_keys: self.named_keys,
            host_buffer: None,
            dictionaries: self.dictionaries,
            trace: Vec::new(),
        };
        assert(trace_views(env.trace@) =~= Seq::<HostFunctionView>::empty());
        env
    }
}

/// Bytes that are all zero stand for zero.
pub proof fn lemma_zero_value(s: Seq<u8>)
    requires
        forall|i: int| 0 <= i < s.len() ==> s[i] == 0,
    ensures
        le_value(s) == 0,
    decreases s.len(),
{
    if s.len() > 0 {
        let rest = s.drop_first();
        assert forall|i: int| 0 <= i < rest.len() implies rest[i] == 0 by {
            assert(rest[i] == s[i + 1]);
        }
        lemma_zero_value(rest);
    }
}

} // verus!
