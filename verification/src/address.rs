//! The address allocator: a counter of full address width, kept in
//! little-endian bytes, that hands out the numbers after its seed, one by one.

use vstd::prelude::*;
use crate::types::Addr;

verus! {

broadcast use vstd::array::group_array_axioms;

/// The number that a sequence of bytes stands for, lowest byte first.
pub open spec fn le_value(s: Seq<u8>) -> nat
    decreases s.len(),
{
    if s.len() == 0 {
        0
    } else {
        s[0] as nat + 256 * le_value(s.drop_first())
    }
}

/// The `len` lowest bytes of a number, lowest byte first.
pub open spec fn le_bytes(n: nat, len: nat) -> Seq<u8>
    decreases len,
{
    if len == 0 {
        Seq::empty()
    } else {
        seq![(n % 256) as u8] + le_bytes(n / 256, (len - 1) as nat)
    }
}

/// The number of values that `len` bytes can hold.
pub open spec fn le_limit(len: nat) -> nat
    decreases len,
{
    if len == 0 {
        1
    } else {
        256 * le_limit((len - 1) as nat)
    }
}

/// Bytes stand for a number below the limit of their length.
pub proof fn lemma_le_value_bound(s: Seq<u8>)
    ensures
        le_value(s) < le_limit(s.len()),
    decreases s.len(),
{
    if s.len() > 0 {
        lemma_le_value_bound(s.drop_first());
        assert(le_value(s) < le_limit(s.len())) by (nonlinear_arith)
            requires
                le_value(s) == s[0] as nat + 256 * le_value(s.drop_first()),
                s[0] < 256,
                le_value(s.drop_first()) < le_limit((s.len() - 1) as nat),
                le_limit(s.len()) == 256 * le_limit((s.len() - 1) as nat),
        ;
    }
}

/// The bytes of a number are the only bytes of their length that stand for it.
pub proof fn lemma_le_bytes_of_value(s: Seq<u8>)
    ensures
        le_bytes(le_value(s), s.len()) == s,
    decreases s.len(),
{
    if s.len() > 0 {
        let rest = s.drop_first();
        lemma_le_bytes_of_value(rest);
        let n = le_value(s);
        assert(n % 256 == s[0] as nat && n / 256 == le_value(rest)) by (nonlinear_arith)
            requires
                n == s[0] as nat + 256 * le_value(rest),
                s[0] < 256,
        ;
        assert(le_bytes(n, s.len()) =~= s);
    }
}

/// A number below the limit comes back from its bytes.
pub proof fn lemma_le_value_of_bytes(n: nat, len: nat)
    requires
        n < le_limit(len),
    ensures
        le_bytes(n, len).len() == len,
        le_value(le_bytes(n, len)) == n,
    decreases len,
{
    if len > 0 {
        let rest_len = (len - 1) as nat;
        assert(n / 256 < le_limit(rest_len)) by (nonlinear_arith)
            requires
                n < 256 * le_limit(rest_len),
        ;
        lemma_le_value_of_bytes(n / 256, rest_len);
        let s = le_bytes(n, len);
        assert(s.drop_first() =~= le_bytes(n / 256, rest_len));
        assert(n == n % 256 + 256 * (n / 256)) by (nonlinear_arith);
    }
}

/// Two encodings of equal length that stand for the same number are equal.
pub proof fn lemma_le_value_injective(a: Seq<u8>, b: Seq<u8>)
    requires
        a.len() == b.len(),
        le_value(a) == le_value(b),
    ensures
        a == b,
{
    lemma_le_bytes_of_value(a);
    lemma_le_bytes_of_value(b);
}

/// What a counter reads after a carry has run through its first `i` bytes
/// and stopped at byte `i`.
pub open spec fn carried(s: Seq<u8>, i: int) -> Seq<u8> {
    Seq::new(
        s.len(),
        |j: int|
            if j < i {
                0u8
            } else if j == i {
                (s[j] + 1) as u8
            } else {
                s[j]
            },
    )
}

/// A carry that stops at the first byte below 255 adds one to the number.
pub proof fn lemma_carried_adds_one(s: Seq<u8>, i: int)
    requires
        0 <= i < s.len(),
        forall|j: int| 0 <= j < i ==> s[j] == 255,
        s[i] < 255,
    ensures
        le_value(carried(s, i)) == le_value(s) + 1,
    decreases i,
{
    let c = carried(s, i);
    if i == 0 {
        assert(c.drop_first() =~= s.drop_first());
    } else {
        let rest = s.drop_first();
        assert forall|j: int| 0 <= j < i - 1 implies rest[j] == 255 by {
            assert(rest[j] == s[j + 1]);
        }
        lemma_carried_adds_one(rest, i - 1);
        assert(c.drop_first() =~= carried(rest, i - 1));
        assert(s[0] == 255);
        assert(c[0] == 0);
    }
}

/// A counter whose bytes are all 255 holds the greatest number of its length.
pub proof fn lemma_all_full(s: Seq<u8>)
    requires
        forall|j: int| 0 <= j < s.len() ==> s[j] == 255,
    ensures
        le_value(s) + 1 == le_limit(s.len()),
    decreases s.len(),
{
    if s.len() > 0 {
        let rest = s.drop_first();
        assert forall|j: int| 0 <= j < rest.len() implies rest[j] == 255 by {
            assert(rest[j] == s[j + 1]);
        }
        lemma_all_full(rest);
        assert(s[0] == 255);
    }
}

/// The counter after one step: the number after the one it held, or `None`
/// where it held the greatest number of its width.
pub fn increment(counter: &Addr) -> (r: Option<Addr>)
    ensures
        r is Some <==> le_value(counter@) + 1 < le_limit(32),
        r is Some ==> le_value(r.unwrap()@) == le_value(counter@) + 1,
{
    let mut out: Addr = *counter;
    let mut i: usize = 0;
    while i < 32
        invariant
            i <= 32,
            forall|j: int| 0 <= j < i ==> counter[j] == 255,
            forall|j: int| 0 <= j < i ==> out[j] == 0,
            forall|j: int| i <= j < 32 ==> out[j] == counter[j],
        decreases 32 - i,
    {
        if out[i] == 255 {
            out[i] = 0;
            i += 1;
        } else {
            let byte: u8 = out[i];
            out[i] = byte + 1;
            proof {
                assert(out@ =~= carried(counter@, i as int));
                lemma_carried_adds_one(counter@, i as int);
                lemma_le_value_bound(out@);
            }
            return Some(out);
        }
    }
    proof {
        lemma_all_full(counter@);
    }
    None
}

} // verus!
