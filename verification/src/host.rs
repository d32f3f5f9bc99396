//! The host: a stack of environments, the slot for the diagnostic of a
//! revert, and the operations of the boundary.
//!
//! Every operation of the boundary takes its arguments as bytes, serves them
//! from the environment on top of the stack and answers with a status and,
//! where there is one, a result. To call one of them while the stack is
//! empty, or with bytes that encode no argument, is a fault of the caller:
//! the preconditions leave such calls out.

use vstd::prelude::*;
use vstd::utf8::*;
use crate::assoc::AssocList;
use crate::codec::{
    decode_cl_value, describe_status, key_to_bytes, parse_key, parse_name, parse_text,
    parse_uref, reason_text, slice_to_vec, spec_decode_key, spec_decode_name, spec_decode_uref,
    spec_key_bytes, spec_parse_cl_value, spec_uref_bytes, uref_to_bytes,
};
use crate::env::{trace_views, Env, EnvView};
use crate::error::ApiError;
use crate::trace::HostFunction;
use crate::types::Key;

verus! {

/// What the diagnostic of a revert says, seen from a contract.
pub struct RevertView {
    pub status: u32,
    pub reason: Seq<char>,
}

/// The diagnostic of a revert: the status that the guest gave, and the
/// error that the status stands for, in words.
#[derive(Debug, Clone, PartialEq, Eq)]
pub struct RevertError {
    pub status: u32,
    pub reason: String,
}

impl View for RevertError {
    type V = RevertView;

    open spec fn view(&self) -> RevertView {
        RevertView { status: self.status, reason: self.reason@ }
    }
}

/// The diagnostic that a revert with `status` leaves behind.
pub open spec fn spec_diagnostic(status: u32) -> RevertView {
    RevertView { status, reason: reason_text(status) }
}

/// What a host holds, seen from a contract.
pub struct HostView {
    /// The environments, the active one last.
    pub stack: Seq<EnvView>,
    /// The diagnostic of the last revert, if there was one.
    pub revert: Option<RevertView>,
}

impl HostView {
    /// Whether an environment is there to serve a call.
    pub open spec fn active(self) -> bool {
        self.stack.len() > 0
    }

    /// The environment that serves the calls.
    pub open spec fn top(self) -> EnvView {
        self.stack.last()
    }

    /// The host with `env` in place of the active environment.
    pub open spec fn with_top(self, env: EnvView) -> HostView {
        HostView { stack: self.stack.update(self.stack.len() - 1, env), ..self }
    }

    /// The host after a dispatch began with `env`: the environment is on
    /// top, and no diagnostic is pending.
    pub open spec fn entered(self, env: EnvView) -> HostView {
        HostView { stack: self.stack.push(env), revert: None }
    }

    /// The host after a dispatch ended: the environment that was on top is
    /// gone, and the one below it, if any, serves again.
    pub open spec fn left(self) -> HostView {
        if self.active() {
            HostView { stack: self.stack.drop_last(), ..self }
        } else {
            self
        }
    }

    /// The host after a revert with `status`.
    pub open spec fn reverted(self, status: u32) -> HostView {
        HostView { revert: Some(spec_diagnostic(status)), ..self }
    }
}

/// The views of a sequence of environments.
pub open spec fn env_views(s: Seq<Env>) -> Seq<EnvView> {
    s.map_values(|e: Env| e@)
}

/// A host.
pub struct Host {
    stack: Vec<Env>,
    revert: Option<RevertError>,
}

impl View for Host {
    type V = HostView;

    closed spec fn view(&self) -> HostView {
        HostView {
            stack: env_views(self.stack@),
            revert: match self.revert {
                Some(e) => Some(e@),
                None => None,
            },
        }
    }
}

/// The status that reports an outcome: zero for success.
pub open spec fn spec_status_of<T>(r: Result<T, ApiError>) -> i32 {
    match r {
        Ok(_) => 0,
        Err(e) => e.spec_status(),
    }
}

/// What asking for a key answers, with room for `output_size` bytes: the
/// status, and the bytes handed out.
pub open spec fn spec_get_key_answer(found: Option<Key>, output_size: usize) -> (i32, Seq<u8>) {
    match found {
        None => (ApiError::MissingKey.spec_status(), Seq::empty()),
        Some(k) => if spec_key_bytes(k).len() > output_size {
            (ApiError::BufferTooSmall.spec_status(), Seq::empty())
        } else {
            (0i32, spec_key_bytes(k))
        },
    }
}

/// What an operation that stages a value answers: the status, and the
/// length that was staged.
pub open spec fn spec_size_answer(outcome: Result<usize, ApiError>) -> (i32, usize) {
    match outcome {
        Ok(n) => (0i32, n),
        Err(e) => (e.spec_status(), 0usize),
    }
}

/// What an operation that hands out bytes answers: the status, and the
/// bytes.
pub open spec fn spec_bytes_answer(outcome: Result<Seq<u8>, ApiError>) -> (i32, Seq<u8>) {
    match outcome {
        Ok(b) => (0i32, b),
        Err(e) => (e.spec_status(), Seq::empty()),
    }
}

impl Host {
    /// A host with no environment and no diagnostic.
    pub fn new() -> (r: Host)
        ensures
            r@ == (HostView { stack: Seq::empty(), revert: None }),
    {
        let h = Host { stack: Vec::new(), revert: None };
        assert(env_views(h.stack@) =~= Seq::<EnvView>::empty());
        h
    }

    /// How many environments are on the stack.
    pub fn depth(&self) -> (r: usize)
        ensures
            r == self@.stack.len(),
    {
        self.stack.len()
    }

    /// Takes the active environment off the stack.
    fn take_top(&mut self) -> (r: Env)
        requires
            old(self)@.active(),
        ensures
            r@ == old(self)@.top(),
            final(self)@ == old(self)@.left(),
    {
        let env = self.stack.pop().unwrap();
        assert(env_views(self.stack@) =~= env_views(old(self).stack@).drop_last());
        env
    }

    /// Puts an environment on top of the stack.
    fn put_top(&mut self, env: Env)
        ensures
            final(self)@ == (HostView { stack: old(self)@.stack.push(env@), ..old(self)@ }),
    {
        self.stack.push(env);
        assert(env_views(self.stack@) =~= env_views(old(self).stack@).push(env@));
    }

    /// Puts back the environment that `take_top` took, after it served a
    /// call.
    fn restore(&mut self, env: Env, Ghost(before): Ghost<HostView>)
        requires
            before.active(),
            old(self)@ == before.left(),
        ensures
            final(self)@ == before.with_top(env@),
    {
        self.put_top(env);
        assert(self@.stack =~= before.stack.update(before.stack.len() - 1, env@));
    }

    /// Begins a dispatch: `env` becomes the active environment, and a
    /// pending diagnostic is cleared.
    pub fn begin_dispatch(&mut self, env: Env)
        ensures
            final(self)@ == old(self)@.entered(env@),
    {
        self.put_top(env);
        self.revert = None;
    }

    /// Ends a dispatch: hands back the active environment, and the one
    /// below it, if any, serves again.
    pub fn end_dispatch(&mut self) -> (r: Option<Env>)
        ensures
            final(self)@ == old(self)@.left(),
            r is Some <==> old(self)@.active(),
            r is Some ==> r.unwrap()@ == old(self)@.top(),
    {
        if self.stack.len() > 0 {
            Some(self.take_top())
        } else {
            None
        }
    }

    /// The environment that serves the calls.
    pub fn top(&self) -> (r: &Env)
        requires
            self@.active(),
        ensures
            r@ == self@.top(),
    {
        let n = self.stack.len();
        &self.stack[n - 1]
    }

    /// Hands out the call trace of the active environment and leaves it
    /// empty.
    pub fn trace(&mut self) -> (r: Vec<HostFunction>)
        requires
            old(self)@.active(),
        ensures
            trace_views(r@) == old(self)@.top().trace,
            final(self)@ == old(self)@.with_top(old(self)@.top().untraced()),
    {
        let ghost before = self@;
        let mut env = self.take_top();
        let out = env.trace();
        self.restore(env, Ghost(before));
        out
    }

    /// A copy of the named-key table of the active environment.
    pub fn named_keys(&self) -> (r: AssocList<String, Key>)
        requires
            self@.active(),
        ensures
            r@ == self@.top().named_keys,
    {
        let n = self.stack.len();
        self.stack[n - 1].named_keys()
    }
}

/// The diagnostic of the last revert, if there was one since the last
/// dispatch began.
pub fn check_revert(host: &Host) -> (r: Option<RevertError>)
    ensures
        r is Some <==> host@.revert is Some,
        r is Some ==> r.unwrap()@ == host@.revert.unwrap(),
{
    match &host.revert {
        Some(e) => Some(RevertError { status: e.status, reason: e.reason.clone() }),
        None => None,
    }
}

/// Clears a pending diagnostic.
pub fn clear_revert(host: &mut Host)
    ensures
        final(host)@ == (HostView { revert: None, ..old(host)@ }),
{
    host.revert = None;
}

/// Records the diagnostic of a revert: the status, and the error that it
/// stands for. The invocation is over after this call: whoever runs the
/// guest ends it without returning to it.
pub fn casper_revert(host: &mut Host, status: u32)
    ensures
        final(host)@ == old(host)@.reverted(status),
{
    let reason = describe_status(status);
    host.revert = Some(RevertError { status, reason });
}

/// Reads the value under a key: stages it and answers with the length of
/// its bytes, or answers that nothing is there.
pub fn casper_read_value(host: &mut Host, key_bytes: &[u8]) -> (r: (i32, usize))
    requires
        old(host)@.active(),
        spec_decode_key(key_bytes@) is Some,
        old(host)@.top().can_read(spec_decode_key(key_bytes@).unwrap()),
    ensures
        final(host)@ == old(host)@.with_top(
            old(host)@.top().spec_read_value(spec_decode_key(key_bytes@).unwrap()),
        ),
        r == spec_size_answer(
            old(host)@.top().spec_read_outcome(spec_decode_key(key_bytes@).unwrap()),
        ),
        r.0 == 0 ==> final(host)@.top().buffer_fits(),
{
    let key = match parse_key(key_bytes) {
        Some(k) => k,
        None => {
            return (ApiError::InvalidArgument.status(), 0);
        },
    };
    let ghost before = host@;
    let mut env = host.take_top();
    let outcome = env.read_value(&key);
    host.restore(env, Ghost(before));
    match outcome {
        Ok(n) => (0, n),
        Err(e) => (e.status(), 0),
    }
}

/// Writes a value under a key, in place of whatever was there.
pub fn casper_write(host: &mut Host, key_bytes: &[u8], value_bytes: &[u8])
    requires
        old(host)@.active(),
        spec_decode_key(key_bytes@) is Some,
        spec_parse_cl_value(value_bytes@) is Some,
    ensures
        final(host)@ == old(host)@.with_top(
            old(host)@.top().spec_write(
                spec_decode_key(key_bytes@).unwrap(),
                spec_parse_cl_value(value_bytes@).unwrap(),
            ),
        ),
{
    let key = match parse_key(key_bytes) {
        Some(k) => k,
        None => {
            return ;
        },
    };
    let value = match decode_cl_value(value_bytes) {
        Some(v) => v,
        None => {
            return ;
        },
    };
    let ghost before = host@;
    let mut env = host.take_top();
    env.write(key, value);
    host.restore(env, Ghost(before));
}

/// Stores a value under a new capability address and answers with the
/// encoding of that address.
pub fn casper_new_uref(host: &mut Host, value_bytes: &[u8]) -> (r: Vec<u8>)
    requires
        old(host)@.active(),
        old(host)@.top().can_mint(),
        spec_parse_cl_value(value_bytes@) is Some,
    ensures
        r@ == spec_uref_bytes(old(host)@.top().next_uref()),
        final(host)@ == old(host)@.with_top(
            old(host)@.top().spec_new_uref(
                old(host)@.top().next_uref(),
                spec_parse_cl_value(value_bytes@).unwrap(),
            ),
        ),
{
    let value = match decode_cl_value(value_bytes) {
        Some(v) => v,
        None => {
            return Vec::new();
        },
    };
    let ghost before = host@;
    let mut env = host.take_top();
    let uref = env.new_uref(value);
    host.restore(env, Ghost(before));
    uref_to_bytes(&uref)
}

/// Asks for the key under a name. The answer is the status and, on
/// success, the encoding of the key: the name may be unknown, or the
/// caller's room of `output_size` bytes too small.
pub fn casper_get_key(host: &mut Host, name_bytes: &[u8], output_size: usize) -> (r: (
    i32,
    Vec<u8>,
))
    requires
        old(host)@.active(),
        spec_decode_name(name_bytes@) is Some,
    ensures
        final(host)@ == old(host)@.with_top(
            old(host)@.top().spec_get_key(spec_decode_name(name_bytes@).unwrap()),
        ),
        (r.0, r.1@) == spec_get_key_answer(
            old(host)@.top().key_of(spec_decode_name(name_bytes@).unwrap()),
            output_size,
        ),
        old(host)@.top().key_of(spec_decode_name(name_bytes@).unwrap()) is Some ==> old(
            host,
        )@.top().key_of(spec_decode_name(name_bytes@).unwrap()).unwrap().wf(),
{
    let name = match parse_name(name_bytes) {
        Some(n) => n,
        None => {
            return (ApiError::InvalidArgument.status(), Vec::new());
        },
    };
    let ghost before = host@;
    let mut env = host.take_top();
    let found = env.get_key(&name);
    host.restore(env, Ghost(before));
    match found {
        Some(key) => {
            let bytes = key_to_bytes(&key);
            if bytes.len() > output_size {
                (ApiError::BufferTooSmall.status(), Vec::new())
            } else {
                (0, bytes)
            }
        },
        None => (ApiError::MissingKey.status(), Vec::new()),
    }
}

/// Asks whether a key is registered under a name: `0` where one is, `1`
/// where none is.
pub fn casper_has_key(host: &mut Host, name_bytes: &[u8]) -> (r: i32)
    requires
        old(host)@.active(),
        spec_decode_name(name_bytes@) is Some,
    ensures
        final(host)@ == old(host)@.with_top(
            old(host)@.top().spec_has_key(spec_decode_name(name_bytes@).unwrap()),
        ),
        r == (if old(host)@.top().named_keys.contains_key(
            spec_decode_name(name_bytes@).unwrap(),
        ) {
            0i32
        } else {
            1i32
        }),
{
    let name = match parse_name(name_bytes) {
        Some(n) => n,
        None => {
            return 1;
        },
    };
    let ghost before = host@;
    let mut env = host.take_top();
    let found = env.has_key(&name);
    host.restore(env, Ghost(before));
    if found {
        0
    } else {
        1
    }
}

/// Registers a key under a name, in place of whatever was there.
pub fn casper_put_key(host: &mut Host, name_bytes: &[u8], key_bytes: &[u8])
    requires
        old(host)@.active(),
        spec_decode_name(name_bytes@) is Some,
        spec_decode_key(key_bytes@) is Some,
    ensures
        final(host)@ == old(host)@.with_top(
            old(host)@.top().spec_put_key(
                spec_decode_name(name_bytes@).unwrap(),
                spec_decode_key(key_bytes@).unwrap(),
            ),
        ),
{
    let name = match parse_name(name_bytes) {
        Some(n) => n,
        None => {
            return ;
        },
    };
    let key = match parse_key(key_bytes) {
        Some(k) => k,
        None => {
            return ;
        },
    };
    let ghost before = host@;
    let mut env = host.take_top();
    env.put_key(name, key);
    host.restore(env, Ghost(before));
}

/// Takes a name out of the named-key table.
pub fn casper_remove_key(host: &mut Host, name_bytes: &[u8])
    requires
        old(host)@.active(),
        spec_decode_name(name_bytes@) is Some,
    ensures
        final(host)@ == old(host)@.with_top(
            old(host)@.top().spec_remove_key(spec_decode_name(name_bytes@).unwrap()),
        ),
{
    let name = match parse_name(name_bytes) {
        Some(n) => n,
        None => {
            return ;
        },
    };
    let ghost before = host@;
    let mut env = host.take_top();
    env.remove_key(&name);
    host.restore(env, Ghost(before));
}

/// Creates a purse and answers with the first `purse_size` bytes of the
/// encoding of its capability address.
pub fn casper_create_purse(host: &mut Host, purse_size: usize) -> (r: (i32, Vec<u8>))
    requires
        old(host)@.active(),
        old(host)@.top().can_mint(),
        purse_size <= 33,
    ensures
        r.0 == 0,
        r.1@ == spec_uref_bytes(old(host)@.top().next_uref()).take(purse_size as int),
        final(host)@ == old(host)@.with_top(
            old(host)@.top().spec_create_purse(old(host)@.top().next_uref()),
        ),
{
    let ghost before = host@;
    let mut env = host.take_top();
    let uref = env.create_purse();
    host.restore(env, Ghost(before));
    let bytes = uref_to_bytes(&uref);
    broadcast use vstd::array::group_array_axioms;

    assert(bytes@.len() == 33);
    (0, slice_to_vec(bytes.as_slice(), 0, purse_size))
}

/// Takes the staged bytes out of the host buffer. With nothing staged the
/// answer is an error; to ask for another length than the one that was
/// reported is a fault of the caller.
pub fn casper_read_host_buffer(host: &mut Host, dest_size: usize) -> (r: (i32, Vec<u8>))
    requires
        old(host)@.active(),
        old(host)@.top().host_buffer is Some ==> old(host)@.top().host_buffer.unwrap().bytes.len()
            == dest_size,
    ensures
        final(host)@ == old(host)@.with_top(old(host)@.top().spec_read_host_buffer()),
        (r.0, r.1@) == spec_bytes_answer(old(host)@.top().spec_host_buffer_outcome()),
{
    let ghost before = host@;
    let mut env = host.take_top();
    let outcome = env.read_host_buffer(dest_size);
    host.restore(env, Ghost(before));
    match outcome {
        Ok(bytes) => (0, bytes),
        Err(e) => (e.status(), Vec::new()),
    }
}

/// Asks for the length of a named argument.
pub fn casper_get_named_arg_size(host: &mut Host, name: &[u8]) -> (r: (i32, usize))
    requires
        old(host)@.active(),
        valid_utf8(name@),
    ensures
        final(host)@ == old(host)@.with_top(old(host)@.top().spec_get_named_arg_size()),
        r == spec_size_answer(old(host)@.top().spec_arg_size_outcome(decode_utf8(name@))),
{
    let name = match parse_text(name) {
        Some(n) => n,
        None => {
            return (ApiError::InvalidArgument.status(), 0);
        },
    };
    let ghost before = host@;
    let mut env = host.take_top();
    let outcome = env.get_named_arg_size(&name);
    host.restore(env, Ghost(before));
    match outcome {
        Ok(n) => (0, n),
        Err(e) => (e.status(), 0),
    }
}

/// Asks for the bytes of a named argument, with room for `dest_size`
/// bytes.
pub fn casper_get_named_arg(host: &mut Host, name: &[u8], dest_size: usize) -> (r: (
    i32,
    Vec<u8>,
))
    requires
        old(host)@.active(),
        valid_utf8(name@),
    ensures
        final(host)@ == old(host)@.with_top(old(host)@.top().spec_get_named_arg()),
        (r.0, r.1@) == spec_bytes_answer(
            old(host)@.top().spec_arg_outcome(decode_utf8(name@), dest_size),
        ),
{
    let name = match parse_text(name) {
        Some(n) => n,
        None => {
            return (ApiError::InvalidArgument.status(), Vec::new());
        },
    };
    let ghost before = host@;
    let mut env = host.take_top();
    let outcome = env.get_named_arg(&name, dest_size);
    host.restore(env, Ghost(before));
    match outcome {
        Ok(bytes) => (0, bytes),
        Err(e) => (e.status(), Vec::new()),
    }
}

/// Creates a dictionary: stages its seed and answers with the length of
/// the seed's encoding.
pub fn casper_new_dictionary(host: &mut Host) -> (r: (i32, usize))
    requires
        old(host)@.active(),
        old(host)@.top().can_mint(),
        old(host)@.top().host_buffer is None,
    ensures
        r == (0i32, 33usize),
        final(host)@ == old(host)@.with_top(
            old(host)@.top().spec_new_dictionary(old(host)@.top().next_uref()),
        ),
{
    let ghost before = host@;
    let mut env = host.take_top();
    let uref = env.new_dictionary();
    host.restore(env, Ghost(before));
    let bytes = uref_to_bytes(&uref);
    broadcast use vstd::array::group_array_axioms;

    (0, bytes.len())
}

/// Puts a value under an item key into the dictionary of a seed. A seed
/// without a dictionary is answered with the status `-1`, an item key that
/// is too long with its own status, and nothing changes.
pub fn casper_dictionary_put(
    host: &mut Host,
    uref_bytes: &[u8],
    key_bytes: &[u8],
    value_bytes: &[u8],
) -> (r: i32)
    requires
        old(host)@.active(),
        spec_decode_uref(uref_bytes@) is Some,
        valid_utf8(key_bytes@),
        spec_parse_cl_value(value_bytes@) is Some,
    ensures
        r == spec_status_of(
            old(host)@.top().spec_dictionary_put_outcome(
                spec_decode_uref(uref_bytes@).unwrap().spec_addr()@,
                decode_utf8(key_bytes@),
            ),
        ),
        final(host)@ == old(host)@.with_top(
            old(host)@.top().spec_dictionary_put(
                spec_decode_uref(uref_bytes@).unwrap().spec_addr()@,
                decode_utf8(key_bytes@),
                spec_parse_cl_value(value_bytes@).unwrap(),
            ),
        ),
{
    let uref = match parse_uref(uref_bytes) {
        Some(u) => u,
        None => {
            return ApiError::InvalidArgument.status();
        },
    };
    let item_key = match parse_text(key_bytes) {
        Some(k) => k,
        None => {
            return ApiError::InvalidArgument.status();
        },
    };
    let value = match decode_cl_value(value_bytes) {
        Some(v) => v,
        None => {
            return ApiError::InvalidArgument.status();
        },
    };
    let ghost before = host@;
    let mut env = host.take_top();
    let seed = uref.addr();
    let outcome = env.dictionary_put(&seed, item_key, value);
    host.restore(env, Ghost(before));
    match outcome {
        Ok(_) => 0,
        Err(e) => e.status(),
    }
}

/// Gets the value under an item key from the dictionary of a seed: stages
/// it and answers with the length of its bytes. A seed without a
/// dictionary is answered with the status `-1`, an item key without a value
/// with the status of a value that was not found.
pub fn casper_dictionary_get(host: &mut Host, uref_bytes: &[u8], key_bytes: &[u8]) -> (r: (
    i32,
    usize,
))
    requires
        old(host)@.active(),
        spec_decode_uref(uref_bytes@) is Some,
        valid_utf8(key_bytes@),
        old(host)@.top().can_dictionary_get(
            spec_decode_uref(uref_bytes@).unwrap().spec_addr()@,
            decode_utf8(key_bytes@),
        ),
    ensures
        r == spec_size_answer(
            old(host)@.top().spec_dictionary_get_outcome(
                spec_decode_uref(uref_bytes@).unwrap().spec_addr()@,
                decode_utf8(key_bytes@),
            ),
        ),
        final(host)@ == old(host)@.with_top(
            old(host)@.top().spec_dictionary_get(
                spec_decode_uref(uref_bytes@).unwrap().spec_addr()@,
                decode_utf8(key_bytes@),
            ),
        ),
        r.0 == 0 ==> final(host)@.top().buffer_fits(),
{
    let uref = match parse_uref(uref_bytes) {
        Some(u) => u,
        None => {
            return (ApiError::InvalidArgument.status(), 0);
        },
    };
    let item_key = match parse_text(key_bytes) {
        Some(k) => k,
        None => {
            return (ApiError::InvalidArgument.status(), 0);
        },
    };
    let ghost before = host@;
    let mut env = host.take_top();
    let seed = uref.addr();
    let outcome = env.dictionary_get(&seed, &item_key);
    host.restore(env, Ghost(before));
    match outcome {
        Ok(n) => (0, n),
        Err(e) => (e.status(), 0),
    }
}

/// Asks for information on the caller, which this host does not model:
/// the answer is the status of an operation that is not handled, with no
/// call stack and nothing staged.
pub fn casper_load_caller_information(host: &Host, action: u8) -> (r: (i32, usize, usize))
    ensures
        r == (ApiError::Unhandled.spec_status(), 0usize, 0usize),
{
    (ApiError::Unhandled.status(), 0, 0)
}

/// Asks for a hash, which this host does not compute: the answer names the
/// argument as invalid, so that a caller can fall back on its own.
pub fn casper_generic_hash(host: &Host, input: &[u8], hash_algo_type: u8) -> (r: i32)
    ensures
        r == ApiError::InvalidArgument.spec_status(),
{
    ApiError::InvalidArgument.status()
}

} // verus!
