//! The guest's side of the boundary: typed operations that encode their
//! arguments, call the host and decode what comes back.

use vstd::prelude::*;
use vstd::utf8::*;
use crate::codec::{
    encode_cl_value, encode_name, key_to_bytes, lemma_name_round_trip, name_fits, parse_key,
    parse_uref, spec_key_bytes, spec_name_bytes, uref_to_bytes, utf8_len,
};
use crate::env::{item_key_too_long, EnvView};
use crate::error::{result_from, ApiError, UniversalError};
use crate::host::{
    casper_dictionary_get, casper_dictionary_put, casper_generic_hash, casper_get_key,
    casper_has_key, casper_load_caller_information, casper_new_dictionary, casper_new_uref,
    casper_put_key, casper_read_host_buffer, casper_read_value, casper_remove_key, casper_revert,
    casper_write, Host, HostView,
};
use crate::types::{Addr, CLValue, EntityAddr, Key, URef, DICTIONARY_ITEM_KEY_MAX_LENGTH};

verus! {

broadcast use vstd::array::group_array_axioms;

/// The room that a guest keeps for the encoding of one key.
pub const KEY_BUFFER_SIZE: usize = 64;

/// How a guest asks for information on its caller.
#[derive(Clone, Copy, PartialEq, Eq, Structural, Debug)]
pub enum CallerAction {
    Initiator,
    Immediate,
    FullStack,
}

/// The hash functions that a guest can ask its host for.
#[derive(Debug, Copy, Clone, PartialEq, Eq, Structural)]
pub enum HashAlgorithm {
    Blake2b,
    Blake3,
    Sha256,
    Keccak256,
}

impl CallerAction {
    /// The byte that stands for the action at the boundary.
    pub open spec fn spec_code(self) -> u8 {
        match self {
            CallerAction::Initiator => 0,
            CallerAction::Immediate => 1,
            CallerAction::FullStack => 2,
        }
    }

    /// The byte that stands for the action at the boundary.
    pub fn code(self) -> (c: u8)
        ensures
            c == self.spec_code(),
    {
        match self {
            CallerAction::Initiator => 0,
            CallerAction::Immediate => 1,
            CallerAction::FullStack => 2,
        }
    }
}

impl HashAlgorithm {
    /// The byte that stands for the algorithm at the boundary.
    pub open spec fn spec_code(self) -> u8 {
        match self {
            HashAlgorithm::Blake2b => 0,
            HashAlgorithm::Blake3 => 1,
            HashAlgorithm::Sha256 => 2,
            HashAlgorithm::Keccak256 => 3,
        }
    }

    /// The byte that stands for the algorithm at the boundary.
    pub fn code(self) -> (c: u8)
        ensures
            c == self.spec_code(),
    {
        match self {
            HashAlgorithm::Blake2b => 0,
            HashAlgorithm::Blake3 => 1,
            HashAlgorithm::Sha256 => 2,
            HashAlgorithm::Keccak256 => 3,
        }
    }
}

/// The encoding of every key is shorter than the room a guest keeps for it.
pub proof fn lemma_key_bytes_fit(k: Key)
    ensures
        spec_key_bytes(k).len() <= 34,
{
    match k {
        Key::AddressableEntity(e) => {
            assert(crate::codec::spec_entity_bytes(e).len() == 33);
        },
        _ => {},
    }
}

/// The key registered under `name`, if one is.
pub fn get_key(host: &mut Host, name: &str) -> (r: Result<Option<Key>, ApiError>)
    requires
        old(host)@.active(),
        name_fits(name@),
    ensures
        final(host)@ == old(host)@.with_top(old(host)@.top().spec_get_key(name@)),
        r == Ok::<Option<Key>, ApiError>(old(host)@.top().key_of(name@)),
{
    proof {
        lemma_name_round_trip(name@);
    }
    let name_bytes = encode_name(name);
    let (status, key_bytes) = casper_get_key(host, name_bytes.as_slice(), KEY_BUFFER_SIZE);
    proof {
        if old(host)@.top().key_of(name@) is Some {
            lemma_key_bytes_fit(old(host)@.top().key_of(name@).unwrap());
            crate::codec::lemma_key_round_trip(old(host)@.top().key_of(name@).unwrap());
        }
    }
    match result_from(status) {
        Ok(_) => {
            match parse_key(key_bytes.as_slice()) {
                Some(key) => Ok(Some(key)),
                None => Err(ApiError::Formatting),
            }
        },
        Err(ApiError::MissingKey) => Ok(None),
        Err(e) => Err(e),
    }
}

/// Registers `key` under `name`, in place of whatever was there.
pub fn put_key(host: &mut Host, name: &str, key: Key) -> (r: Result<(), ApiError>)
    requires
        old(host)@.active(),
        name_fits(name@),
    ensures
        final(host)@ == old(host)@.with_top(old(host)@.top().spec_put_key(name@, key)),
        r is Ok,
{
    proof {
        lemma_name_round_trip(name@);
    }
    let name_bytes = encode_name(name);
    let key_bytes = key_to_bytes(&key);
    casper_put_key(host, name_bytes.as_slice(), key_bytes.as_slice());
    Ok(())
}

/// Whether a key is registered under `name`.
pub fn has_key(host: &mut Host, name: &str) -> (r: bool)
    requires
        old(host)@.active(),
        name_fits(name@),
    ensures
        final(host)@ == old(host)@.with_top(old(host)@.top().spec_has_key(name@)),
        r == old(host)@.top().named_keys.contains_key(name@),
{
    proof {
        lemma_name_round_trip(name@);
    }
    let name_bytes = encode_name(name);
    let status = casper_has_key(host, name_bytes.as_slice());
    status == 0
}

/// Takes `name` out of the named-key table.
pub fn remove_key(host: &mut Host, name: &str)
    requires
        old(host)@.active(),
        name_fits(name@),
    ensures
        final(host)@ == old(host)@.with_top(old(host)@.top().spec_remove_key(name@)),
{
    proof {
        lemma_name_round_trip(name@);
    }
    let name_bytes = encode_name(name);
    casper_remove_key(host, name_bytes.as_slice());
}

/// Takes `size` bytes out of the host buffer.
pub fn read_host_buffer(host: &mut Host, size: usize) -> (r: Result<Vec<u8>, ApiError>)
    requires
        old(host)@.active(),
        old(host)@.top().host_buffer is Some ==> old(host)@.top().host_buffer.unwrap().bytes.len()
            == size,
    ensures
        final(host)@ == old(host)@.with_top(old(host)@.top().spec_read_host_buffer()),
        match old(host)@.top().spec_host_buffer_outcome() {
            Ok(bytes) => r is Ok && r.unwrap()@ == bytes,
            Err(e) => r == Err::<Vec<u8>, ApiError>(e),
        },
{
    let (status, bytes) = casper_read_host_buffer(host, size);
    match result_from(status) {
        Ok(_) => Ok(bytes),
        Err(e) => Err(e),
    }
}

/// What the store holds after a guest read the value under `key`: the read
/// is recorded, and the host buffer is as it was.
pub open spec fn spec_after_read(env: EnvView, key: Key) -> EnvView {
    match env.read_cl_value(key) {
        Some(_) => env.spec_read_value(key).drained(),
        None => env.spec_read_value(key),
    }
}

/// The bytes of the value under `key`, or `None` where nothing is stored
/// there.
pub fn read_key(host: &mut Host, key: &Key) -> (r: Result<Option<Vec<u8>>, ApiError>)
    requires
        old(host)@.active(),
        old(host)@.top().can_read(*key),
    ensures
        final(host)@ == old(host)@.with_top(spec_after_read(old(host)@.top(), *key)),
        match old(host)@.top().read_cl_value(*key) {
            Some(v) => r is Ok && r.unwrap() is Some && r.unwrap().unwrap()@ == v.bytes,
            None => r == Ok::<Option<Vec<u8>>, ApiError>(None),
        },
{
    let key_bytes = key_to_bytes(key);
    let (status, size) = casper_read_value(host, key_bytes.as_slice());
    match result_from(status) {
        Ok(_) => {
            let outcome = read_host_buffer(host, size);
            assert(host@.stack =~= old(host)@.with_top(
                spec_after_read(old(host)@.top(), *key),
            ).stack);
            match outcome {
                Ok(bytes) => Ok(Some(bytes)),
                Err(e) => Err(e),
            }
        },
        Err(ApiError::ValueNotFound) => Ok(None),
        Err(e) => Err(e),
    }
}

/// Writes `value` under `key`, in place of whatever was there.
pub fn write_key(host: &mut Host, value: &CLValue, key: Key) -> (r: Result<(), ApiError>)
    requires
        old(host)@.active(),
    ensures
        final(host)@ == old(host)@.with_top(old(host)@.top().spec_write(key, value@)),
        r is Ok,
{
    let key_bytes = key_to_bytes(&key);
    let value_bytes = encode_cl_value(value);
    casper_write(host, key_bytes.as_slice(), value_bytes.as_slice());
    Ok(())
}

/// Stores `value` under a new capability address and answers with the key
/// of that address.
pub fn new_uref_key(host: &mut Host, value: &CLValue) -> (r: Result<Key, ApiError>)
    requires
        old(host)@.active(),
        old(host)@.top().can_mint(),
    ensures
        r == Ok::<Key, ApiError>(Key::URef(old(host)@.top().next_uref())),
        final(host)@ == old(host)@.with_top(
            old(host)@.top().spec_new_uref(old(host)@.top().next_uref(), value@),
        ),
{
    let value_bytes = encode_cl_value(value);
    let uref_bytes = casper_new_uref(host, value_bytes.as_slice());
    proof {
        lemma_next_uref_wf(old(host)@.top());
        crate::codec::lemma_uref_round_trip(old(host)@.top().next_uref());
    }
    match parse_uref(uref_bytes.as_slice()) {
        Some(uref) => Ok(Key::URef(uref)),
        None => Err(ApiError::Formatting),
    }
}

/// The capability address that a counter hands out has every right, so it
/// is well formed.
pub proof fn lemma_next_uref_wf(env: EnvView)
    requires
        env.can_mint(),
    ensures
        env.mints(env.next_uref()),
        env.next_uref().wf(),
{
    crate::address::lemma_le_value_of_bytes(env.counter + 1, 32);
    let bytes = crate::address::le_bytes(env.counter + 1, 32);
    URef::lemma_exists(bytes, 7);
    let u = choose|u: URef| u.spec_addr()@ == bytes && u.spec_rights() == 7;
    assert(env.mints(u));
}

/// What the store holds after a guest created a dictionary: the seed was
/// minted and registered, and the host buffer is as it was.
pub open spec fn spec_after_new_dictionary(env: EnvView) -> EnvView {
    env.spec_new_dictionary(env.next_uref()).drained()
}

/// Creates a dictionary and answers with its seed.
pub fn new_dictionary_uref(host: &mut Host) -> (r: Result<URef, ApiError>)
    requires
        old(host)@.active(),
        old(host)@.top().can_mint(),
        old(host)@.top().host_buffer is None,
    ensures
        r == Ok::<URef, ApiError>(old(host)@.top().next_uref()),
        final(host)@ == old(host)@.with_top(spec_after_new_dictionary(old(host)@.top())),
{
    let (status, size) = casper_new_dictionary(host);
    proof {
        lemma_next_uref_wf(old(host)@.top());
        crate::codec::lemma_uref_round_trip(old(host)@.top().next_uref());
    }
    match result_from(status) {
        Ok(_) => {},
        Err(e) => {
            return Err(e);
        },
    }
    let outcome = read_host_buffer(host, size);
    assert(host@.stack =~= old(host)@.with_top(spec_after_new_dictionary(old(host)@.top())).stack);
    match outcome {
        Ok(bytes) => match parse_uref(bytes.as_slice()) {
            Some(uref) => Ok(uref),
            None => Err(ApiError::Formatting),
        },
        Err(e) => Err(e),
    }
}

/// Creates a dictionary and answers with the key of its seed.
pub fn new_dictionary_key(host: &mut Host) -> (r: Result<Key, ApiError>)
    requires
        old(host)@.active(),
        old(host)@.top().can_mint(),
        old(host)@.top().host_buffer is None,
    ensures
        r == Ok::<Key, ApiError>(Key::URef(old(host)@.top().next_uref())),
        final(host)@ == old(host)@.with_top(spec_after_new_dictionary(old(host)@.top())),
{
    match new_dictionary_uref(host) {
        Ok(uref) => Ok(Key::URef(uref)),
        Err(e) => Err(e),
    }
}

/// The host after a guest gave up on an item key that is too long: the
/// revert is on record.
pub open spec fn spec_key_too_long(host: HostView) -> HostView {
    host.reverted(36)
}

/// Puts `value` under `item_key` into the dictionary of `seed`. An item key
/// that is too long ends the invocation: the revert is recorded, and
/// nothing else changes.
pub fn dictionary_put_clvalue(
    host: &mut Host,
    seed: &URef,
    item_key: &str,
    value: CLValue,
) -> (r: Result<(), ApiError>)
    requires
        old(host)@.active(),
    ensures
        item_key_too_long(item_key@) ==> r == Err::<(), ApiError>(
            ApiError::DictionaryItemKeyExceedsLength,
        ) && final(host)@ == spec_key_too_long(old(host)@),
        !item_key_too_long(item_key@) ==> r == old(host)@.top().spec_dictionary_put_outcome(
            seed.spec_addr()@,
            item_key@,
        ) && final(host)@ == old(host)@.with_top(
            old(host)@.top().spec_dictionary_put(seed.spec_addr()@, item_key@, value@),
        ),
{
    if utf8_len(item_key) > DICTIONARY_ITEM_KEY_MAX_LENGTH {
        casper_revert(host, 36);
        return Err(ApiError::DictionaryItemKeyExceedsLength);
    }
    let uref_bytes = uref_to_bytes(seed);
    let value_bytes = encode_cl_value(&value);
    let key_bytes = item_key.as_bytes();
    proof {
        encode_utf8_valid_utf8(item_key@);
        encode_utf8_decode_utf8(item_key@);
    }
    let status = casper_dictionary_put(host, uref_bytes.as_slice(), key_bytes, value_bytes.as_slice());
    result_from(status)
}

/// What the store holds after a guest got an item from a dictionary: the
/// host buffer is as it was.
pub open spec fn spec_after_dictionary_get(env: EnvView, addr: Seq<u8>, item: Seq<char>) -> EnvView {
    env.spec_dictionary_get(addr, item).drained()
}

/// The bytes of the value under `item_key` in the dictionary of `seed`, or
/// `None` where there is no such item. An item key that is too long ends
/// the invocation before the host is asked, and so does a seed without a
/// dictionary after it: the revert is recorded.
pub fn dictionary_get_bytes(host: &mut Host, seed: &URef, item_key: &str) -> (r: Result<
    Option<Vec<u8>>,
    ApiError,
>)
    requires
        old(host)@.active(),
        old(host)@.top().can_dictionary_get(seed.spec_addr()@, item_key@),
    ensures
        item_key_too_long(item_key@) ==> r == Err::<Option<Vec<u8>>, ApiError>(
            ApiError::DictionaryItemKeyExceedsLength,
        ) && final(host)@ == spec_key_too_long(old(host)@),
        !item_key_too_long(item_key@) ==> (match old(host)@.top().spec_dictionary_item(
            seed.spec_addr()@,
            item_key@,
        ) {
            Ok(v) => r is Ok && r.unwrap() is Some && r.unwrap().unwrap()@ == v.bytes
                && final(host)@ == old(host)@.with_top(
                spec_after_dictionary_get(old(host)@.top(), seed.spec_addr()@, item_key@),
            ),
            Err(ApiError::ValueNotFound) => r == Ok::<Option<Vec<u8>>, ApiError>(None)
                && final(host)@ == old(host)@,
            Err(e) => r == Err::<Option<Vec<u8>>, ApiError>(e) && final(host)@
                == old(host)@.reverted(spec_revert_status(e)),
        }),
{
    if utf8_len(item_key) > DICTIONARY_ITEM_KEY_MAX_LENGTH {
        casper_revert(host, 36);
        return Err(ApiError::DictionaryItemKeyExceedsLength);
    }
    let uref_bytes = uref_to_bytes(seed);
    let key_bytes = item_key.as_bytes();
    proof {
        encode_utf8_valid_utf8(item_key@);
        encode_utf8_decode_utf8(item_key@);
    }
    let (status, size) = casper_dictionary_get(host, uref_bytes.as_slice(), key_bytes);
    assert(host@.stack =~= old(host)@.with_top(
        old(host)@.top().spec_dictionary_get(seed.spec_addr()@, item_key@),
    ).stack);
    match result_from(status) {
        Ok(_) => {
            let outcome = read_host_buffer(host, size);
            assert(host@.stack =~= old(host)@.with_top(
                spec_after_dictionary_get(old(host)@.top(), seed.spec_addr()@, item_key@),
            ).stack);
            match outcome {
                Ok(bytes) => Ok(Some(bytes)),
                Err(e) => Err(e),
            }
        },
        Err(ApiError::ValueNotFound) => {
            assert(host@.stack =~= old(host)@.stack);
            Ok(None)
        },
        Err(e) => {
            assert(host@.stack =~= old(host)@.stack);
            casper_revert(host, revert_status(e));
            Err(e)
        },
    }
}

/// The status that a guest reverts with for an error: the error's own
/// status, as an unsigned number.
pub open spec fn spec_revert_status(e: ApiError) -> u32 {
    if e.spec_status() >= 0 {
        e.spec_status() as u32
    } else {
        (e.spec_status() + 0x1_0000_0000) as u32
    }
}

/// The status that a guest reverts with for an error.
pub fn revert_status(e: ApiError) -> (r: u32)
    ensures
        r == spec_revert_status(e),
{
    let s: i32 = e.status();
    if s >= 0 {
        s as u32
    } else {
        let wide: i64 = s as i64;
        (wide + 0x1_0000_0000) as u32
    }
}

/// The capability address registered under `name`. A name without a key,
/// and a key of another kind, are both answered with the error of an
/// unexpected key.
pub fn get_uref(host: &mut Host, name: &str) -> (r: Result<Option<URef>, ApiError>)
    requires
        old(host)@.active(),
        name_fits(name@),
    ensures
        final(host)@ == old(host)@.with_top(old(host)@.top().spec_get_key(name@)),
        r == spec_uref_of(old(host)@.top().key_of(name@)),
{
    match get_key(host, name) {
        Ok(Some(key)) => match key.into_uref() {
            Some(uref) => Ok(Some(uref)),
            None => Err(ApiError::UnexpectedKeyVariant),
        },
        Ok(None) => Err(ApiError::UnexpectedKeyVariant),
        Err(e) => Err(e),
    }
}

/// What asking for a capability address answers for the key that was found.
pub open spec fn spec_uref_of(found: Option<Key>) -> Result<Option<URef>, ApiError> {
    match found {
        Some(Key::URef(u)) => Ok(Some(u)),
        _ => Err(ApiError::UnexpectedKeyVariant),
    }
}

/// Asks the host for a hash of `data`. This host computes none and says
/// so.
pub fn generic_hash(host: &Host, algo: HashAlgorithm, data: &[u8]) -> (r: Result<Addr, ApiError>)
    ensures
        r == Err::<Addr, ApiError>(ApiError::InvalidArgument),
{
    let status = casper_generic_hash(host, data, algo.code());
    match result_from(status) {
        Ok(_) => Ok([0u8; 32]),
        Err(e) => Err(e),
    }
}

/// What a host reports of a caller: its kind, and the fields that belong
/// to the kind.
#[derive(Debug, Clone, Copy, PartialEq, Eq)]
pub struct CallerInfo {
    pub kind: u8,
    pub account: Option<Addr>,
    pub entity: Option<EntityAddr>,
    pub contract: Option<Addr>,
}

/// The kind of a caller that is an account.
pub const CALLER_ACCOUNT: u8 = 0;

/// The kind of a caller that is a contract package.
pub const CALLER_CONTRACT_PACKAGE: u8 = 2;

/// The kind of a caller that is an entity.
pub const CALLER_ENTITY: u8 = 3;

/// The kind of a caller that is a contract.
pub const CALLER_CONTRACT: u8 = 4;

/// The entity address of a caller, or the error of an invalid context
/// where the caller's kind has none or the field of its kind is missing.
pub open spec fn spec_entity_addr_of(info: CallerInfo) -> Result<Option<EntityAddr>, UniversalError> {
    if info.kind == CALLER_ACCOUNT {
        match info.account {
            Some(a) => Ok(Some(EntityAddr::Account(a))),
            None => Err(UniversalError::InvalidContext),
        }
    } else if info.kind == CALLER_ENTITY {
        match info.entity {
            Some(e) => Ok(Some(e)),
            None => Err(UniversalError::InvalidContext),
        }
    } else if info.kind == CALLER_CONTRACT {
        match info.contract {
            Some(c) => Ok(Some(EntityAddr::SmartContract(c))),
            None => Err(UniversalError::InvalidContext),
        }
    } else {
        Err(UniversalError::InvalidContext)
    }
}

/// The entity address of a caller.
pub fn entity_addr_of(info: &CallerInfo) -> (r: Result<Option<EntityAddr>, UniversalError>)
    ensures
        r == spec_entity_addr_of(*info),
{
    if info.kind == CALLER_ACCOUNT {
        match info.account {
            Some(a) => Ok(Some(EntityAddr::Account(a))),
            None => Err(UniversalError::InvalidContext),
        }
    } else if info.kind == CALLER_ENTITY {
        match info.entity {
            Some(e) => Ok(Some(e)),
            None => Err(UniversalError::InvalidContext),
        }
    } else if info.kind == CALLER_CONTRACT {
        match info.contract {
            Some(c) => Ok(Some(EntityAddr::SmartContract(c))),
            None => Err(UniversalError::InvalidContext),
        }
    } else {
        Err(UniversalError::InvalidContext)
    }
}

/// Asks the host for the caller that `action` names. This host models no
/// callers: it answers that the question is not handled and stages no
/// record of a caller, so there is none to read.
pub fn get_initiator_or_immediate(host: &Host, action: CallerAction) -> (r: Result<
    CallerInfo,
    UniversalError,
>)
    ensures
        r == Err::<CallerInfo, UniversalError>(UniversalError::Other(ApiError::Unhandled)),
{
    let (status, call_stack_len, result_size) = casper_load_caller_information(
        host,
        action.code(),
    );
    match result_from(status) {
        Ok(_) => {},
        Err(e) => {
            return Err(UniversalError::Other(e));
        },
    }
    if call_stack_len == 0 {
        return Err(UniversalError::Other(ApiError::InvalidCallerInfoRequest));
    }
    Err(UniversalError::Other(ApiError::Unhandled))
}

/// What the entity address of the immediate caller is, going by what the
/// host said of the caller: a host that does not handle the question has no
/// immediate caller to name.
pub open spec fn spec_immediate_entity(asked: Result<CallerInfo, UniversalError>) -> Result<
    Option<EntityAddr>,
    UniversalError,
> {
    match asked {
        Ok(info) => spec_entity_addr_of(info),
        Err(UniversalError::Other(ApiError::Unhandled)) => Ok(None),
        Err(e) => Err(e),
    }
}

/// The entity address of the immediate caller, for what the host said of
/// the caller.
pub fn immediate_entity(asked: Result<CallerInfo, UniversalError>) -> (r: Result<
    Option<EntityAddr>,
    UniversalError,
>)
    ensures
        r == spec_immediate_entity(asked),
{
    match asked {
        Ok(info) => entity_addr_of(&info),
        Err(UniversalError::Other(ApiError::Unhandled)) => Ok(None),
        Err(e) => Err(e),
    }
}

/// The entity address of the immediate caller.
pub fn get_immediate_entity_addr(host: &Host) -> (r: Result<Option<EntityAddr>, UniversalError>)
    ensures
        r == spec_immediate_entity(
            Err::<CallerInfo, UniversalError>(UniversalError::Other(ApiError::Unhandled)),
        ),
{
    immediate_entity(get_initiator_or_immediate(host, CallerAction::Immediate))
}

/// The account that an entity address names, or the error of an invalid
/// context where it names none.
pub open spec fn spec_account_of(entity: Result<Option<EntityAddr>, UniversalError>) -> Result<
    Addr,
    ApiError,
> {
    match entity {
        Ok(Some(EntityAddr::Account(a))) => Ok(a),
        Ok(_) => Err(UniversalError::InvalidContext.spec_api_error()),
        Err(e) => Err(e.spec_api_error()),
    }
}

/// The account that an entity address names.
pub fn account_of(entity: Result<Option<EntityAddr>, UniversalError>) -> (r: Result<
    Addr,
    ApiError,
>)
    ensures
        r == spec_account_of(entity),
{
    match entity {
        Ok(Some(EntityAddr::Account(a))) => Ok(a),
        Ok(_) => Err(UniversalError::InvalidContext.into_api_error()),
        Err(e) => Err(e.into_api_error()),
    }
}

/// The account of the immediate caller. With a host that models no
/// callers this is the error of an invalid context.
pub fn get_immediate_account(host: &Host) -> (r: Result<Addr, ApiError>)
    ensures
        r == Err::<Addr, ApiError>(ApiError::User(56901)),
{
    account_of(get_immediate_entity_addr(host))
}

/// The message that a guest hands to its host to have `text` printed: the
/// encoding of the text.
pub fn print(text: &str) -> (r: Vec<u8>)
    requires
        name_fits(text@),
    ensures
        r@ == spec_name_bytes(text@),
{
    encode_name(text)
}

} // verus!
