//! A named key: a name of the named-key table together with what the guest
//! last learned about it.
//!
//! The first question about a name goes to the host; the answer is kept,
//! and every later question is served from it until the answer is taken
//! away again.

use vstd::prelude::*;
use crate::assoc::AssocList;
use crate::codec::name_fits;
use crate::env::EnvView;
use crate::error::ApiError;
use crate::host::{Host, HostView};
use crate::types::{CLValue, Key, URef};
use crate::utils::{
    dictionary_get_bytes, dictionary_put_clvalue, get_key, new_dictionary_key, new_uref_key,
    put_key, read_key, remove_key, spec_after_dictionary_get, spec_after_new_dictionary,
    spec_after_read, spec_revert_status, write_key,
};
use crate::env::item_key_too_long;

verus! {

/// What is known about a name: nothing yet, or the answer that was kept.
pub type Cached = Option<Result<Option<Key>, ApiError>>;

/// What a named key is, seen from a contract.
pub struct NamedKeyView {
    pub name: Seq<char>,
    pub cache: Cached,
}

impl NamedKeyView {
    /// What asking about the name answers, against the environment `env`:
    /// the answer that was kept, or what the host says.
    pub open spec fn resolution(self, env: EnvView) -> Result<Option<Key>, ApiError> {
        match self.cache {
            Some(kept) => kept,
            None => Ok(env.key_of(self.name)),
        }
    }

    /// The named key after it was asked about: the answer is kept.
    pub open spec fn resolved(self, env: EnvView) -> NamedKeyView {
        NamedKeyView { cache: Some(self.resolution(env)), ..self }
    }

    /// The environment after the named key was asked about: the host was
    /// asked only where no answer was kept.
    pub open spec fn env_after_resolve(self, env: EnvView) -> EnvView {
        match self.cache {
            Some(_) => env,
            None => env.spec_get_key(self.name),
        }
    }

    /// The named key with `key` as its answer.
    pub open spec fn holding(self, key: Key) -> NamedKeyView {
        NamedKeyView { cache: Some(Ok(Some(key))), ..self }
    }

    /// The named key with no answer kept.
    pub open spec fn forgotten(self) -> NamedKeyView {
        NamedKeyView { cache: None, ..self }
    }

    /// The capability address that the name resolves to.
    pub open spec fn uref_resolution(self, env: EnvView) -> Result<Option<URef>, ApiError> {
        match self.resolution(env) {
            Ok(Some(key)) => Ok(key.spec_into_uref()),
            Ok(None) => Ok(None),
            Err(e) => Err(e),
        }
    }

    /// The seed that a dictionary operation on the name goes to, or why
    /// there is none.
    pub open spec fn seed(self, env: EnvView) -> Result<URef, ApiError> {
        match self.uref_resolution(env) {
            Ok(Some(u)) => Ok(u),
            Ok(None) => Err(ApiError::MissingKey),
            Err(e) => Err(e),
        }
    }

    /// The key that a write through the name goes to, or why there is
    /// none.
    pub open spec fn target(self, env: EnvView) -> Result<Key, ApiError> {
        match self.resolution(env) {
            Ok(Some(key)) => Ok(key),
            Ok(None) => Err(ApiError::MissingKey),
            Err(e) => Err(e),
        }
    }
}

/// How to come by a key for a name that has none.
pub enum Fallback {
    /// The outcome is at hand.
    Ready(Result<Key, ApiError>),
    /// Create a dictionary and take the key of its seed.
    NewDictionary,
    /// Store a value under a new capability address and take its key.
    NewURef(CLValue),
}

impl Fallback {
    /// Whether the fallback can be carried out against `env`.
    pub open spec fn can_run(&self, env: EnvView) -> bool {
        match self {
            Fallback::Ready(_) => true,
            Fallback::NewDictionary => env.can_mint() && env.host_buffer is None,
            Fallback::NewURef(_) => env.can_mint(),
        }
    }

    /// What the fallback answers against `env`.
    pub open spec fn outcome(&self, env: EnvView) -> Result<Key, ApiError> {
        match self {
            Fallback::Ready(r) => *r,
            Fallback::NewDictionary => Ok(Key::URef(env.next_uref())),
            Fallback::NewURef(_) => Ok(Key::URef(env.next_uref())),
        }
    }

    /// The environment after the fallback was carried out.
    pub open spec fn env_after(&self, env: EnvView) -> EnvView {
        match self {
            Fallback::Ready(_) => env,
            Fallback::NewDictionary => spec_after_new_dictionary(env),
            Fallback::NewURef(v) => env.spec_new_uref(env.next_uref(), v@),
        }
    }
}

/// A named key.
pub struct NamedKey {
    name: String,
    key: Cached,
}

impl View for NamedKey {
    type V = NamedKeyView;

    closed spec fn view(&self) -> NamedKeyView {
        NamedKeyView { name: self.name@, cache: self.key }
    }
}

impl NamedKey {
    /// The name of a named key is short enough to be encoded.
    #[verifier::type_invariant]
    pub open spec fn inv(&self) -> bool {
        name_fits(self@.name)
    }

    /// A named key for `name`, with nothing known about it.
    pub fn from_name(name: &str) -> (r: NamedKey)
        requires
            name_fits(name@),
        ensures
            r@ == (NamedKeyView { name: name@, cache: None }),
    {
        NamedKey { name: name.to_owned(), key: None }
    }

    /// The name.
    pub fn name(&self) -> (r: &str)
        ensures
            r@ == self@.name,
    {
        self.name.as_str()
    }

    /// Asks about the name: the answer that was kept, or else what the host
    /// says, which is kept from now on.
    pub fn resolve_key(&mut self, host: &mut Host) -> (r: Result<Option<Key>, ApiError>)
        requires
            old(host)@.active(),
        ensures
            r == old(self)@.resolution(old(host)@.top()),
            final(self)@ == old(self)@.resolved(old(host)@.top()),
            final(host)@ == old(host)@.with_top(old(self)@.env_after_resolve(old(host)@.top())),
    {
        proof {
            use_type_invariant(&*self);
        }
        match self.key {
            Some(kept) => {
                assert(host@.stack =~= old(host)@.with_top(old(host)@.top()).stack);
                kept
            },
            None => {
                let answer = get_key(host, self.name.as_str());
                self.key = Some(answer);
                answer
            },
        }
    }

    /// Asks about the name, as a capability address.
    pub fn resolve_uref(&mut self, host: &mut Host) -> (r: Result<Option<URef>, ApiError>)
        requires
            old(host)@.active(),
        ensures
            r == old(self)@.uref_resolution(old(host)@.top()),
            final(self)@ == old(self)@.resolved(old(host)@.top()),
            final(host)@ == old(host)@.with_top(old(self)@.env_after_resolve(old(host)@.top())),
    {
        match self.resolve_key(host) {
            Ok(Some(key)) => Ok(key.into_uref()),
            Ok(None) => Ok(None),
            Err(e) => Err(e),
        }
    }

    /// The key registered under the name, if one is.
    pub fn get(&mut self, host: &mut Host) -> (r: Result<Option<Key>, ApiError>)
        requires
            old(host)@.active(),
        ensures
            r == old(self)@.resolution(old(host)@.top()),
            final(self)@ == old(self)@.resolved(old(host)@.top()),
            final(host)@ == old(host)@.with_top(old(self)@.env_after_resolve(old(host)@.top())),
    {
        self.resolve_key(host)
    }

    /// Asks about the name and, where it has no key, comes by one through
    /// `fallback` and keeps it as the answer. The named-key table of the
    /// host is not written: the new key is known to the guest alone.
    pub fn get_or_init(&mut self, host: &mut Host, fallback: Fallback) -> (r: Result<(), ApiError>)
        requires
            old(host)@.active(),
            old(self)@.resolution(old(host)@.top()) == Ok::<Option<Key>, ApiError>(None)
                ==> fallback.can_run(old(host)@.top()),
        ensures
            final(host)@.active(),
            final(host)@.top().named_keys == old(host)@.top().named_keys,
            match old(self)@.resolution(old(host)@.top()) {
                Ok(Some(_)) => r is Ok && final(self)@ == old(self)@.resolved(old(host)@.top())
                    && final(host)@ == old(host)@.with_top(
                    old(self)@.env_after_resolve(old(host)@.top()),
                ),
                Err(e) => r == Err::<(), ApiError>(e) && final(self)@ == old(self)@.resolved(
                    old(host)@.top(),
                ) && final(host)@ == old(host)@.with_top(
                    old(self)@.env_after_resolve(old(host)@.top()),
                ),
                Ok(None) => {
                    let env = old(self)@.env_after_resolve(old(host)@.top());
                    &&& final(host)@ == old(host)@.with_top(fallback.env_after(env))
                    &&& match fallback.outcome(env) {
                        Ok(key) => r is Ok && final(self)@ == old(self)@.holding(key),
                        Err(e) => r == Err::<(), ApiError>(e) && final(self)@
                            == old(self)@.resolved(old(host)@.top()),
                    }
                },
            },
    {
        let key = match self.resolve_key(host) {
            Ok(k) => k,
            Err(e) => {
                return Err(e);
            },
        };
        match key {
            Some(_) => Ok(()),
            None => {
                let ghost mid = host@;
                let minted = match fallback {
                    Fallback::Ready(r) => {
                        assert(host@.stack =~= mid.with_top(mid.top()).stack);
                        r
                    },
                    Fallback::NewDictionary => new_dictionary_key(host),
                    Fallback::NewURef(value) => new_uref_key(host, &value),
                };
                assert(host@.stack =~= old(host)@.with_top(
                    fallback.env_after(old(self)@.env_after_resolve(old(host)@.top())),
                ).stack);
                match minted {
                    Ok(new_key) => {
                        proof {
                            use_type_invariant(&*self);
                        }
                        self.key = Some(Ok(Some(new_key)));
                        Ok(())
                    },
                    Err(e) => Err(e),
                }
            },
        }
    }

    /// Asks about the name, hands out the answer and forgets it: the next
    /// question goes to the host again. The named-key table of the host is
    /// not touched.
    pub fn take(&mut self, host: &mut Host) -> (r: Result<Option<Key>, ApiError>)
        requires
            old(host)@.active(),
        ensures
            r == old(self)@.resolution(old(host)@.top()),
            r is Ok ==> final(self)@ == old(self)@.forgotten(),
            r is Err ==> final(self)@ == old(self)@.resolved(old(host)@.top()),
            final(host)@ == old(host)@.with_top(old(self)@.env_after_resolve(old(host)@.top())),
    {
        match self.resolve_key(host) {
            Ok(key) => {
                proof {
                    use_type_invariant(&*self);
                }
                self.key = None;
                Ok(key)
            },
            Err(e) => Err(e),
        }
    }

    /// Registers the key that the name resolves to in the named-key table
    /// of the host.
    pub fn put_to_named_keys(&mut self, host: &mut Host) -> (r: Result<(), ApiError>)
        requires
            old(host)@.active(),
        ensures
            final(self)@ == old(self)@.resolved(old(host)@.top()),
            match old(self)@.target(old(host)@.top()) {
                Ok(key) => r is Ok && final(host)@ == old(host)@.with_top(
                    old(self)@.env_after_resolve(old(host)@.top()).spec_put_key(
                        old(self)@.name,
                        key,
                    ),
                ),
                Err(e) => r == Err::<(), ApiError>(e) && final(host)@ == old(host)@.with_top(
                    old(self)@.env_after_resolve(old(host)@.top()),
                ),
            },
    {
        proof {
            use_type_invariant(&*self);
        }
        let key = match self.resolve_key(host) {
            Ok(Some(k)) => k,
            Ok(None) => {
                return Err(ApiError::MissingKey);
            },
            Err(e) => {
                return Err(e);
            },
        };
        let outcome = put_key(host, self.name.as_str(), key);
        assert(host@.stack =~= old(host)@.with_top(
            old(self)@.env_after_resolve(old(host)@.top()).spec_put_key(old(self)@.name, key),
        ).stack);
        outcome
    }

    /// Adds the key that the name resolves to, under the name, to a table
    /// that the caller keeps.
    pub fn append_to_named_keys(
        &mut self,
        host: &mut Host,
        named_keys: &mut AssocList<String, Key>,
    ) -> (r: Result<(), ApiError>)
        requires
            old(host)@.active(),
        ensures
            final(self)@ == old(self)@.resolved(old(host)@.top()),
            final(host)@ == old(host)@.with_top(old(self)@.env_after_resolve(old(host)@.top())),
            match old(self)@.target(old(host)@.top()) {
                Ok(key) => r is Ok && final(named_keys)@ == old(named_keys)@.insert(
                    old(self)@.name,
                    key,
                ),
                Err(e) => r == Err::<(), ApiError>(e) && final(named_keys)@ == old(named_keys)@,
            },
    {
        let key = match self.resolve_key(host) {
            Ok(Some(k)) => k,
            Ok(None) => {
                return Err(ApiError::MissingKey);
            },
            Err(e) => {
                return Err(e);
            },
        };
        named_keys.insert(self.name.clone(), key);
        Ok(())
    }

    /// Registers `key` under the name in the named-key table of the host
    /// and keeps it as the answer.
    pub fn set(&mut self, host: &mut Host, key: Key) -> (r: Result<(), ApiError>)
        requires
            old(host)@.active(),
        ensures
            r is Ok,
            final(self)@ == old(self)@.holding(key),
            final(host)@ == old(host)@.with_top(
                old(host)@.top().spec_put_key(old(self)@.name, key),
            ),
    {
        proof {
            use_type_invariant(&*self);
        }
        self.key = Some(Ok(Some(key)));
        put_key(host, self.name.as_str(), key)
    }

    /// Takes the name out of the named-key table of the host. The answer
    /// that the guest keeps stays as it is.
    pub fn clear(&self, host: &mut Host)
        requires
            old(host)@.active(),
        ensures
            final(host)@ == old(host)@.with_top(old(host)@.top().spec_remove_key(self@.name)),
    {
        proof {
            use_type_invariant(self);
        }
        remove_key(host, self.name.as_str());
    }

    /// The bytes of the value stored under the key that the name resolves
    /// to, or `None` where the name has no key or the key no value.
    pub fn read(&mut self, host: &mut Host) -> (r: Result<Option<Vec<u8>>, ApiError>)
        requires
            old(host)@.active(),
            old(self)@.target(old(host)@.top()) is Ok ==> old(host)@.top().can_read(
                old(self)@.target(old(host)@.top()).unwrap(),
            ),
        ensures
            final(self)@ == old(self)@.resolved(old(host)@.top()),
            match old(self)@.resolution(old(host)@.top()) {
                Ok(Some(key)) => final(host)@ == old(host)@.with_top(
                    spec_after_read(old(self)@.env_after_resolve(old(host)@.top()), key),
                ) && match old(host)@.top().read_cl_value(key) {
                    Some(v) => r is Ok && r.unwrap() is Some && r.unwrap().unwrap()@ == v.bytes,
                    None => r == Ok::<Option<Vec<u8>>, ApiError>(None),
                },
                Ok(None) => r == Ok::<Option<Vec<u8>>, ApiError>(None) && final(host)@
                    == old(host)@.with_top(old(self)@.env_after_resolve(old(host)@.top())),
                Err(e) => r == Err::<Option<Vec<u8>>, ApiError>(e) && final(host)@
                    == old(host)@.with_top(old(self)@.env_after_resolve(old(host)@.top())),
            },
    {
        let key = match self.get(host) {
            Ok(Some(k)) => k,
            Ok(None) => {
                return Ok(None);
            },
            Err(e) => {
                return Err(e);
            },
        };
        let outcome = read_key(host, &key);
        assert(host@.stack =~= old(host)@.with_top(
            spec_after_read(old(self)@.env_after_resolve(old(host)@.top()), key),
        ).stack);
        outcome
    }

    /// Writes `value` under the key that the name resolves to.
    pub fn write(&mut self, host: &mut Host, value: &CLValue) -> (r: Result<(), ApiError>)
        requires
            old(host)@.active(),
        ensures
            final(self)@ == old(self)@.resolved(old(host)@.top()),
            match old(self)@.target(old(host)@.top()) {
                Ok(key) => r is Ok && final(host)@ == old(host)@.with_top(
                    old(self)@.env_after_resolve(old(host)@.top()).spec_write(key, value@),
                ),
                Err(e) => r == Err::<(), ApiError>(e) && final(host)@ == old(host)@.with_top(
                    old(self)@.env_after_resolve(old(host)@.top()),
                ),
            },
    {
        let key = match self.resolve_key(host) {
            Ok(Some(k)) => k,
            Ok(None) => {
                return Err(ApiError::MissingKey);
            },
            Err(e) => {
                return Err(e);
            },
        };
        let outcome = write_key(host, value, key);
        assert(host@.stack =~= old(host)@.with_top(
            old(self)@.env_after_resolve(old(host)@.top()).spec_write(key, value@),
        ).stack);
        outcome
    }

    /// Puts `value` under `item_key` into the dictionary whose seed the name
    /// resolves to.
    pub fn put_dict(&mut self, host: &mut Host, item_key: &str, value: CLValue) -> (r: Result<
        (),
        ApiError,
    >)
        requires
            old(host)@.active(),
        ensures
            final(self)@ == old(self)@.resolved(old(host)@.top()),
            r == put_dict_outcome(old(self)@, old(host)@, item_key@),
            final(host)@ == put_dict_host(old(self)@, old(host)@, item_key@, value@),
    {
        self.put_dict_clvalue(host, item_key, value)
    }

    /// Puts `value` under `item_key` into the dictionary whose seed the name
    /// resolves to.
    pub fn put_dict_clvalue(&mut self, host: &mut Host, item_key: &str, value: CLValue) -> (r:
        Result<(), ApiError>)
        requires
            old(host)@.active(),
        ensures
            final(self)@ == old(self)@.resolved(old(host)@.top()),
            r == put_dict_outcome(old(self)@, old(host)@, item_key@),
            final(host)@ == put_dict_host(old(self)@, old(host)@, item_key@, value@),
    {
        let uref = match self.resolve_uref(host) {
            Ok(Some(u)) => u,
            Ok(None) => {
                return Err(ApiError::MissingKey);
            },
            Err(e) => {
                return Err(e);
            },
        };
        let outcome = dictionary_put_clvalue(host, &uref, item_key, value);
        proof {
            let env = old(self)@.env_after_resolve(old(host)@.top());
            if !item_key_too_long(item_key@) {
                assert(host@.stack =~= old(host)@.with_top(
                    env.spec_dictionary_put(uref.spec_addr()@, item_key@, value@),
                ).stack);
            }
        }
        outcome
    }

    /// The bytes of the value under `item_key` in the dictionary whose seed
    /// the name resolves to.
    pub fn get_bytes(&mut self, host: &mut Host, item_key: &str) -> (r: Result<
        Option<Vec<u8>>,
        ApiError,
    >)
        requires
            old(host)@.active(),
            can_get_dict(old(self)@, old(host)@, item_key@),
        ensures
            final(self)@ == old(self)@.resolved(old(host)@.top()),
            bytes_outcome_is(r, get_dict_outcome(old(self)@, old(host)@, item_key@)),
            final(host)@ == get_dict_host(old(self)@, old(host)@, item_key@),
    {
        let uref = match self.resolve_uref(host) {
            Ok(Some(u)) => u,
            Ok(None) => {
                return Err(ApiError::MissingKey);
            },
            Err(e) => {
                return Err(e);
            },
        };
        let outcome = dictionary_get_bytes(host, &uref, item_key);
        proof {
            let env = old(self)@.env_after_resolve(old(host)@.top());
            let addr = uref.spec_addr()@;
            match old(host)@.top().spec_dictionary_item(addr, item_key@) {
                Ok(_) => {
                    assert(host@.stack =~= old(host)@.with_top(
                        spec_after_dictionary_get(env, addr, item_key@),
                    ).stack);
                },
                Err(_) => {},
            }
        }
        outcome
    }

    /// The bytes of the value under `item_key` in the dictionary whose seed
    /// the name resolves to, or `None` where the dictionary has no such
    /// item.
    pub fn get_dict(&mut self, host: &mut Host, item_key: &str) -> (r: Result<
        Option<Vec<u8>>,
        ApiError,
    >)
        requires
            old(host)@.active(),
            can_get_dict(old(self)@, old(host)@, item_key@),
        ensures
            final(self)@ == old(self)@.resolved(old(host)@.top()),
            bytes_outcome_is(r, get_dict_outcome(old(self)@, old(host)@, item_key@)),
            final(host)@ == get_dict_host(old(self)@, old(host)@, item_key@),
    {
        self.get_bytes(host, item_key)
    }
}

/// What a put into the dictionary of the named key `nk` answers, against
/// the host `before`.
pub open spec fn put_dict_outcome(nk: NamedKeyView, before: HostView, item: Seq<char>) -> Result<
    (),
    ApiError,
> {
    let env = nk.env_after_resolve(before.top());
    match nk.seed(before.top()) {
        Err(e) => Err(e),
        Ok(seed) => if item_key_too_long(item) {
            Err(ApiError::DictionaryItemKeyExceedsLength)
        } else {
            env.spec_dictionary_put_outcome(seed.spec_addr()@, item)
        },
    }
}

/// The host after a put into the dictionary of the named key `nk`.
pub open spec fn put_dict_host(
    nk: NamedKeyView,
    before: HostView,
    item: Seq<char>,
    value: crate::types::CLValueView,
) -> HostView {
    let env = nk.env_after_resolve(before.top());
    match nk.seed(before.top()) {
        Err(_) => before.with_top(env),
        Ok(seed) => if item_key_too_long(item) {
            before.with_top(env).reverted(36)
        } else {
            before.with_top(env.spec_dictionary_put(seed.spec_addr()@, item, value))
        },
    }
}

/// What a get from the dictionary of the named key `nk` answers, against
/// the host `before`.
pub open spec fn get_dict_outcome(nk: NamedKeyView, before: HostView, item: Seq<char>) -> Result<
    Option<Seq<u8>>,
    ApiError,
> {
    match nk.seed(before.top()) {
        Err(e) => Err(e),
        Ok(seed) => if item_key_too_long(item) {
            Err(ApiError::DictionaryItemKeyExceedsLength)
        } else {
            match before.top().spec_dictionary_item(seed.spec_addr()@, item) {
                Ok(v) => Ok(Some(v.bytes)),
                Err(ApiError::ValueNotFound) => Ok(None),
                Err(e) => Err(e),
            }
        },
    }
}

/// The host after a get from the dictionary of the named key `nk`.
pub open spec fn get_dict_host(nk: NamedKeyView, before: HostView, item: Seq<char>) -> HostView {
    let env = nk.env_after_resolve(before.top());
    match nk.seed(before.top()) {
        Err(_) => before.with_top(env),
        Ok(seed) => if item_key_too_long(item) {
            before.with_top(env).reverted(36)
        } else {
            match before.top().spec_dictionary_item(seed.spec_addr()@, item) {
                Ok(_) => before.with_top(
                    spec_after_dictionary_get(env, seed.spec_addr()@, item),
                ),
                Err(ApiError::ValueNotFound) => before.with_top(env),
                Err(e) => before.with_top(env).reverted(spec_revert_status(e)),
            }
        },
    }
}

/// Whether the bytes that were handed out are the ones that were stated.
pub open spec fn bytes_outcome_is(
    r: Result<Option<Vec<u8>>, ApiError>,
    stated: Result<Option<Seq<u8>>, ApiError>,
) -> bool {
    match stated {
        Ok(Some(b)) => r is Ok && r.unwrap() is Some && r.unwrap().unwrap()@ == b,
        Ok(None) => r == Ok::<Option<Vec<u8>>, ApiError>(None),
        Err(e) => r == Err::<Option<Vec<u8>>, ApiError>(e),
    }
}

/// Whether a get from the dictionary of the named key `nk` can be served.
pub open spec fn can_get_dict(nk: NamedKeyView, before: HostView, item: Seq<char>) -> bool {
    nk.seed(before.top()) is Ok ==> before.top().can_dictionary_get(
        nk.seed(before.top()).unwrap().spec_addr()@,
        item,
    )
}

} // verus!
