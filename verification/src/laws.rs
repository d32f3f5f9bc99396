//! What holds of the host and of a named key, whatever their state: the
//! laws that the contracts of the operations add up to.

use vstd::prelude::*;
use crate::address::{le_bytes, le_value, lemma_le_bytes_of_value};
use crate::env::{item_key_too_long, EnvView};
use crate::error::ApiError;
use crate::host::HostView;
use crate::collections::spec_read_outcome;
use crate::named_key::{get_dict_outcome, NamedKeyView};
use crate::trace::HostFunctionView;
use crate::types::{CLValueView, Key, StoredValueView, URef};

verus! {

broadcast use vstd::array::group_array_axioms;

/// A read of a key under which nothing is stored reports that nothing is
/// there, and stages nothing. In a fresh environment this holds of every
/// key.
pub proof fn lemma_read_absent(env: EnvView, key: Key)
    requires
        !env.database.contains_key(key),
    ensures
        env.read(key) is None,
        env.spec_read_outcome(key) == Err::<usize, ApiError>(ApiError::ValueNotFound),
        env.spec_read_value(key).host_buffer == env.host_buffer,
        EnvView::fresh().read(key) is None,
        EnvView::fresh().spec_read_outcome(key) == Err::<usize, ApiError>(
            ApiError::ValueNotFound,
        ),
{
}

/// A value that was written under a key is what a read of that key finds,
/// unchanged, whatever was stored there before; a write under another key
/// does not change it.
pub proof fn lemma_write_then_read(env: EnvView, key: Key, value: CLValueView, other: Key)
    ensures
        env.spec_write(key, value).read(key) == Some(StoredValueView::CLValue(value)),
        env.spec_write(key, value).read_cl_value(key) == Some(value),
        other != key ==> env.spec_write(key, value).read(other) == env.read(other),
{
}

/// A value that was staged is what the next read of the host buffer hands
/// out, and the read leaves the buffer empty; a read of the empty buffer
/// is answered with an error and changes nothing. While a value is staged
/// no other can be staged.
pub proof fn lemma_stage_then_drain(env: EnvView, value: CLValueView)
    ensures
        env.staged(value).spec_host_buffer_outcome() == Ok::<Seq<u8>, ApiError>(value.bytes),
        env.staged(value).spec_read_host_buffer().host_buffer is None,
        env.staged(value).spec_read_host_buffer() == env.drained(),
        env.drained().spec_host_buffer_outcome() == Err::<Seq<u8>, ApiError>(
            ApiError::HostBufferEmpty,
        ),
        env.drained().spec_read_host_buffer() == env.drained(),
        env.staged(value).host_buffer is Some,
{
}

/// The environment after `n` addresses were handed out.
pub open spec fn minted_times(env: EnvView, n: nat) -> EnvView
    decreases n,
{
    if n == 0 {
        env
    } else {
        minted_times(env, (n - 1) as nat).minted()
    }
}

/// Handing out addresses changes the counter and nothing else.
pub proof fn lemma_minted_times(env: EnvView, n: nat)
    ensures
        minted_times(env, n) == (EnvView { counter: env.counter + n, ..env }),
    decreases n,
{
    if n > 0 {
        lemma_minted_times(env, (n - 1) as nat);
    }
}

/// The addresses that a counter hands out from the seed zero are the
/// encodings of the numbers from one on, in that order: the `i`-th is the
/// number `i`, lowest byte first and padded with zeros, so that a later one
/// stands for a greater number and no two are the same.
pub proof fn lemma_address_sequence(i: nat, j: nat, a: URef, b: URef)
    requires
        1 <= i < j,
        minted_times(EnvView::fresh(), (i - 1) as nat).mints(a),
        minted_times(EnvView::fresh(), (j - 1) as nat).mints(b),
    ensures
        le_value(a.spec_addr()@) == i,
        le_value(b.spec_addr()@) == j,
        a.spec_addr()@ == le_bytes(i, 32),
        b.spec_addr()@ == le_bytes(j, 32),
        le_value(a.spec_addr()@) < le_value(b.spec_addr()@),
        a.spec_addr() != b.spec_addr(),
        a != b,
{
    lemma_minted_times(EnvView::fresh(), (i - 1) as nat);
    lemma_minted_times(EnvView::fresh(), (j - 1) as nat);
    lemma_le_bytes_of_value(a.spec_addr()@);
    lemma_le_bytes_of_value(b.spec_addr()@);
}

/// A counter never hands out an address twice: what it hands out after
/// `n` more steps differs from what it hands out now.
pub proof fn lemma_address_never_reused(env: EnvView, n: nat, a: URef, b: URef)
    requires
        n > 0,
        env.mints(a),
        minted_times(env, n).mints(b),
    ensures
        le_value(a.spec_addr()@) < le_value(b.spec_addr()@),
        a != b,
{
    lemma_minted_times(env, n);
}

/// A put into the dictionary of a seed that was never registered is
/// answered with the error of a dictionary that was not found, whatever
/// the item key, and changes nothing; so is a get.
pub proof fn lemma_put_without_dictionary(
    env: EnvView,
    addr: Seq<u8>,
    item: Seq<char>,
    value: CLValueView,
)
    requires
        !env.has_dictionary(addr),
    ensures
        env.spec_dictionary_put_outcome(addr, item) == Err::<(), ApiError>(
            ApiError::DictionaryNotFound,
        ),
        env.spec_dictionary_put(addr, item, value) == env,
        env.spec_dictionary_item(addr, item) == Err::<CLValueView, ApiError>(
            ApiError::DictionaryNotFound,
        ),
        env.spec_dictionary_get(addr, item) == env,
{
}

/// An item key that is too long is turned down before anything changes:
/// in a registered dictionary with its own error, and without a dictionary
/// with the error of the missing dictionary.
pub proof fn lemma_long_item_key(env: EnvView, addr: Seq<u8>, item: Seq<char>, value: CLValueView)
    requires
        item_key_too_long(item),
    ensures
        env.spec_dictionary_put_outcome(addr, item) is Err,
        env.has_dictionary(addr) ==> env.spec_dictionary_put_outcome(addr, item) == Err::<
            (),
            ApiError,
        >(ApiError::DictionaryItemKeyExceedsLength),
        env.spec_dictionary_put(addr, item, value) == env,
        env.spec_dictionary_get(addr, item) == env,
{
}

/// After a dictionary was created, a put under its seed succeeds, and a
/// get finds what was put; a get of an item key under which nothing was
/// put reports that nothing is there, which is no error of the
/// dictionary.
pub proof fn lemma_dictionary_after_creation(
    env: EnvView,
    seed: URef,
    item: Seq<char>,
    value: CLValueView,
    other: Seq<char>,
)
    requires
        !item_key_too_long(item),
        !item_key_too_long(other),
    ensures
        env.spec_new_dictionary(seed).has_dictionary(seed.spec_addr()@),
        env.spec_new_dictionary(seed).spec_dictionary_put_outcome(seed.spec_addr()@, item) is Ok,
        env.spec_new_dictionary(seed).spec_dictionary_put(
            seed.spec_addr()@,
            item,
            value,
        ).spec_dictionary_item(seed.spec_addr()@, item) == Ok::<CLValueView, ApiError>(value),
        !env.has_dictionary(seed.spec_addr()@) && other != item ==> env.spec_new_dictionary(
            seed,
        ).spec_dictionary_put(seed.spec_addr()@, item, value).spec_dictionary_item(
            seed.spec_addr()@,
            other,
        ) == Err::<CLValueView, ApiError>(ApiError::ValueNotFound),
{
}

/// A get of an item key that a registered dictionary does not hold is
/// answered with "nothing there": seen through a named key it is `None`,
/// never an error.
pub proof fn lemma_get_absent_item(nk: NamedKeyView, host: HostView, seed: URef, item: Seq<char>)
    requires
        nk.seed(host.top()) == Ok::<URef, ApiError>(seed),
        host.top().has_dictionary(seed.spec_addr()@),
        !host.top().dictionaries[seed.spec_addr()@].contains_key(item),
        !item_key_too_long(item),
    ensures
        host.top().spec_dictionary_item(seed.spec_addr()@, item) == Err::<CLValueView, ApiError>(
            ApiError::ValueNotFound,
        ),
        get_dict_outcome(nk, host, item) == Ok::<Option<Seq<u8>>, ApiError>(None),
{
}

/// The first question about a name goes to the host and leaves exactly one
/// entry in the call trace; the answer is kept, so that a second question
/// gets the same answer and leaves the trace as it is.
pub proof fn lemma_resolve_once(name: Seq<char>, env: EnvView)
    ensures
        ({
            let fresh = NamedKeyView { name, cache: None };
            let known = fresh.resolved(env);
            let asked = fresh.env_after_resolve(env);
            &&& fresh.resolution(env) == Ok::<Option<Key>, ApiError>(env.key_of(name))
            &&& asked.trace == env.trace.push(HostFunctionView::GetKey(name))
            &&& asked.named_keys == env.named_keys
            &&& known.resolution(asked) == fresh.resolution(env)
            &&& known.env_after_resolve(asked) == asked
            &&& known.resolved(asked) == known
        }),
{
}

/// A named key that is asked again after its answer was taken goes to the
/// host again.
pub proof fn lemma_take_forgets(nk: NamedKeyView, env: EnvView)
    ensures
        nk.forgotten().resolution(env) == Ok::<Option<Key>, ApiError>(env.key_of(nk.name)),
        nk.forgotten().env_after_resolve(env).trace == env.trace.push(
            HostFunctionView::GetKey(nk.name),
        ),
{
}

/// A key that a named key holds without having registered it is known to
/// the guest alone: the host's table has it only after it was put there.
pub proof fn lemma_set_then_resolve(nk: NamedKeyView, env: EnvView, key: Key)
    ensures
        nk.holding(key).resolution(env) == Ok::<Option<Key>, ApiError>(Some(key)),
        nk.holding(key).env_after_resolve(env) == env,
        env.spec_put_key(nk.name, key).key_of(nk.name) == Some(key),
        env.spec_put_key(nk.name, key).trace == env.trace.push(
            HostFunctionView::PutKey(nk.name, key),
        ),
        env.spec_remove_key(nk.name).key_of(nk.name) is None,
{
}

/// A call changes the environment that serves it and no other: what a
/// contract says of the active environment after a call holds of the
/// host's top, and the environments below it are what they were.
pub proof fn lemma_call_touches_the_top_only(host: HostView, env: EnvView)
    requires
        host.active(),
    ensures
        host.with_top(env).active(),
        host.with_top(env).top() == env,
        host.with_top(env).stack.len() == host.stack.len(),
        forall|i: int|
            0 <= i < host.stack.len() - 1 ==> host.with_top(env).stack[i] == host.stack[i],
        host.with_top(env).revert == host.revert,
{
}

/// While a value waits in the host buffer, no operation that would stage
/// another is accepted: a read of a key that holds a value, and a get of an
/// item that a dictionary holds, are both outside what the operations take.
/// A read or a get that finds nothing stages nothing and is accepted.
pub proof fn lemma_no_second_staging(env: EnvView, key: Key, addr: Seq<u8>, item: Seq<char>)
    requires
        env.host_buffer is Some,
    ensures
        env.read_cl_value(key) is Some ==> !env.can_read(key),
        env.read(key) is None ==> env.can_read(key) && env.spec_read_value(key).host_buffer
            == env.host_buffer,
        env.spec_dictionary_item(addr, item) is Ok ==> !env.can_dictionary_get(addr, item),
        env.spec_dictionary_item(addr, item) is Err ==> env.can_dictionary_get(addr, item)
            && env.spec_dictionary_get(addr, item) == env,
{
}

/// A value that was written through a named key is what a read through
/// the same named key hands out, where the host buffer is free: the name
/// resolves to the same key without asking the host again, and the bytes
/// are the ones that were written.
pub proof fn lemma_named_key_write_then_read(
    nk: NamedKeyView,
    host: HostView,
    key: Key,
    value: CLValueView,
)
    requires
        host.active(),
        host.top().host_buffer is None,
        nk.target(host.top()) == Ok::<Key, ApiError>(key),
    ensures
        ({
            let known = nk.resolved(host.top());
            let written = host.with_top(nk.env_after_resolve(host.top()).spec_write(key, value));
            &&& known.resolution(written.top()) == Ok::<Option<Key>, ApiError>(Some(key))
            &&& known.env_after_resolve(written.top()) == written.top()
            &&& written.top().can_read(key)
            &&& written.top().read_cl_value(key) == Some(value)
            &&& spec_read_outcome(known, written) == Ok::<Option<Seq<u8>>, ApiError>(
                Some(value.bytes),
            )
        }),
{
}

/// An environment that was entered is the one that serves the calls, and
/// the environments below it are untouched; when it is left, the one below
/// it serves again.
pub proof fn lemma_dispatch_nests(host: HostView, env: EnvView)
    ensures
        host.entered(env).active(),
        host.entered(env).top() == env,
        host.entered(env).revert is None,
        host.entered(env).left().stack == host.stack,
        host.active() ==> host.entered(env).left().top() == host.top(),
        forall|inner: EnvView| #[trigger]
            host.entered(env).with_top(inner).left().stack == host.stack,
{
    assert(host.entered(env).left().stack =~= host.stack);
    assert forall|inner: EnvView| #[trigger]
        host.entered(env).with_top(inner).left().stack == host.stack by {
        assert(host.entered(env).with_top(inner).left().stack =~= host.stack);
    }
}

/// A revert leaves its status and the reason that the status stands for
/// in the slot, and the next dispatch clears the slot.
pub proof fn lemma_revert_is_recorded(host: HostView, status: u32, env: EnvView)
    ensures
        host.reverted(status).revert is Some,
        host.reverted(status).revert.unwrap().status == status,
        host.reverted(status).revert.unwrap().reason == crate::codec::reason_text(status),
        host.reverted(status).stack == host.stack,
        host.reverted(status).entered(env).revert is None,
{
}

} // verus!
