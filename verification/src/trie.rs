//! The nodes of the state trie as a guest sees them in a proof, and the
//! hash of the state that a proof leads to.

use vstd::prelude::*;
use vstd::bytes::*;
use crate::codec::append_bytes;
use crate::error::ApiError;
use crate::host::Host;
use crate::types::Addr;
use crate::utils::{generic_hash, HashAlgorithm};
use casper_types::bytesrepr::ToBytes;

verus! {

broadcast use vstd::array::group_array_axioms;

/// How many pointers a node of the trie holds.
pub const RADIX: usize = 256;

/// A pointer to a node of the trie, by the hash of that node.
#[derive(Debug, Clone, Copy, PartialEq, Eq)]
pub enum Pointer {
    LeafPointer(Addr),
    NodePointer(Addr),
}

/// One step of a proof: the node that the step passes through, without the
/// pointer to where the proof came from.
#[derive(Debug, Clone, PartialEq, Eq)]
pub enum TrieMerkleProofStep {
    /// A node: the place of the missing pointer, and the other pointers
    /// with their places.
    Node { hole_index: u8, indexed_pointers_with_hole: Vec<(u8, Pointer)> },
    /// An extension: the bytes that it adds to the path.
    Extension { affix: Vec<u8> },
}

/// The pointers of a node, by their place.
#[derive(Debug, PartialEq, Eq)]
pub struct PointerBlock {
    slots: Vec<Option<Pointer>>,
}

/// A node of the trie.
#[derive(Debug, PartialEq, Eq)]
pub enum Trie {
    Node { pointer_block: PointerBlock },
    Extension { affix: Vec<u8>, pointer: Pointer },
}

/// The encoding of a pointer: a tag for its variant, then the hash.
pub open spec fn spec_pointer_bytes(p: Pointer) -> Seq<u8> {
    match p {
        Pointer::LeafPointer(hash) => seq![0u8] + hash@,
        Pointer::NodePointer(hash) => seq![1u8] + hash@,
    }
}

/// The encoding of a place in a node: a zero for an empty place, a one and
/// the pointer for a taken one.
pub open spec fn spec_slot_bytes(slot: Option<Pointer>) -> Seq<u8> {
    match slot {
        None => seq![0u8],
        Some(p) => seq![1u8] + spec_pointer_bytes(p),
    }
}

/// The encoding of places, one after the other.
pub open spec fn spec_slots_bytes(slots: Seq<Option<Pointer>>) -> Seq<u8>
    decreases slots.len(),
{
    if slots.len() == 0 {
        Seq::empty()
    } else {
        spec_slots_bytes(slots.drop_last()) + spec_slot_bytes(slots.last())
    }
}

/// The encoding of the bytes of a path: their number in four little-endian
/// bytes, then the bytes.
pub open spec fn spec_affix_bytes(affix: Seq<u8>) -> Seq<u8> {
    spec_u32_to_le_bytes(affix.len() as u32) + affix
}

/// The places of a node that holds the given pointers: where two pointers
/// name the same place, the later one stays.
pub open spec fn spec_slots_of(pairs: Seq<(u8, Pointer)>) -> Seq<Option<Pointer>>
    decreases pairs.len(),
{
    if pairs.len() == 0 {
        Seq::new(256, |i: int| None::<Pointer>)
    } else {
        spec_slots_of(pairs.drop_last()).update(pairs.last().0 as int, Some(pairs.last().1))
    }
}

/// Calls `casper_types::Pointer::to_bytes` on the pointer of that crate
/// with the same variant and hash: one tag byte, then the 32 bytes of the
/// hash.
#[verifier::external_body]
pub(crate) fn pointer_to_bytes(pointer: &Pointer) -> (r: Vec<u8>)
    ensures
        r@ == spec_pointer_bytes(*pointer),
{
    let p = match *pointer {
        Pointer::LeafPointer(h) => casper_types::Pointer::LeafPointer(casper_types::Digest::from_raw(h)),
        Pointer::NodePointer(h) => casper_types::Pointer::NodePointer(casper_types::Digest::from_raw(h)),
    };
    p.to_bytes().unwrap_or_default()
}

/// Calls `casper_types::bytesrepr::Bytes::to_bytes`: the number of the
/// bytes in four little-endian bytes, then the bytes.
#[verifier::external_body]
pub(crate) fn affix_to_bytes(affix: &Vec<u8>) -> (r: Vec<u8>)
    requires
        affix@.len() <= u32::MAX,
    ensures
        r@ == spec_affix_bytes(affix@),
{
    casper_types::bytesrepr::Bytes::from(affix.as_slice()).to_bytes().unwrap_or_default()
}

impl View for PointerBlock {
    type V = Seq<Option<Pointer>>;

    closed spec fn view(&self) -> Seq<Option<Pointer>> {
        self.slots@
    }
}

impl PointerBlock {
    /// A node has a place for every byte.
    #[verifier::type_invariant]
    pub open spec fn inv(&self) -> bool {
        self@.len() == RADIX
    }

    /// The node that holds the given pointers at their places.
    pub fn from_indexed_pointers(indexed_pointers: &Vec<(u8, Pointer)>) -> (r: PointerBlock)
        ensures
            r@ == spec_slots_of(indexed_pointers@),
    {
        let mut slots: Vec<Option<Pointer>> = Vec::new();
        let mut n: usize = 0;
        while n < 256
            invariant
                n <= 256,
                slots@ == Seq::new(n as nat, |i: int| None::<Pointer>),
            decreases 256 - n,
        {
            slots.push(None);
            assert(slots@ =~= Seq::new((n + 1) as nat, |i: int| None::<Pointer>));
            n += 1;
        }
        let mut i: usize = 0;
        while i < indexed_pointers.len()
            invariant
                i <= indexed_pointers.len(),
                slots@.len() == 256,
                slots@ == spec_slots_of(indexed_pointers@.take(i as int)),
            decreases indexed_pointers.len() - i,
        {
            let (index, pointer) = indexed_pointers[i];
            proof {
                let upto = indexed_pointers@.take(i + 1);
                assert(upto.drop_last() == indexed_pointers@.take(i as int));
                assert(upto.last() == indexed_pointers@[i as int]);
            }
            slots.set(index as usize, Some(pointer));
            i += 1;
        }
        proof {
            assert(indexed_pointers@.take(i as int) == indexed_pointers@);
        }
        PointerBlock { slots }
    }

    /// The pointer at a place, if the place is taken.
    pub fn get(&self, index: u8) -> (r: Option<Pointer>)
        ensures
            self@.len() == 256,
            r == self@[index as int],
    {
        proof {
            use_type_invariant(self);
        }
        self.slots[index as usize]
    }

    /// The length of the encoding of the node.
    pub fn serialized_length(&self) -> (r: usize)
        ensures
            r == spec_slots_bytes(self@).len(),
    {
        proof {
            use_type_invariant(self);
        }
        let mut total: usize = 0;
        let mut i: usize = 0;
        while i < 256
            invariant
                i <= 256,
                self.slots@.len() == 256,
                total == spec_slots_bytes(self.slots@.take(i as int)).len(),
                total <= 34 * i,
            decreases 256 - i,
        {
            proof {
                let upto = self.slots@.take(i + 1);
                assert(upto.drop_last() == self.slots@.take(i as int));
                assert(upto.last() == self.slots@[i as int]);
            }
            total = total + match self.slots[i] {
                Some(_) => 34,
                None => 1,
            };
            i += 1;
        }
        proof {
            assert(self.slots@.take(256) == self.slots@);
        }
        total
    }

    /// Appends the encoding of the node to `writer`.
    pub fn write_bytes(&self, writer: &mut Vec<u8>)
        ensures
            final(writer)@ == old(writer)@ + spec_slots_bytes(self@),
    {
        proof {
            use_type_invariant(self);
        }
        let mut i: usize = 0;
        while i < 256
            invariant
                i <= 256,
                self.slots@.len() == 256,
                writer@ == old(writer)@ + spec_slots_bytes(self.slots@.take(i as int)),
            decreases 256 - i,
        {
            proof {
                let upto = self.slots@.take(i + 1);
                assert(upto.drop_last() == self.slots@.take(i as int));
                assert(upto.last() == self.slots@[i as int]);
            }
            let ghost before = writer@;
            match self.slots[i] {
                Some(pointer) => {
                    writer.push(1);
                    let bytes = pointer_to_bytes(&pointer);
                    append_bytes(writer, bytes.as_slice());
                    assert(writer@ =~= before + spec_slot_bytes(Some(pointer)));
                },
                None => {
                    writer.push(0);
                    assert(writer@ =~= before + spec_slot_bytes(None::<Pointer>));
                },
            }
            assert(writer@ =~= old(writer)@ + spec_slots_bytes(self.slots@.take(i + 1)));
            i += 1;
        }
        proof {
            assert(self.slots@.take(256) == self.slots@);
        }
    }

    /// The encoding of the node.
    pub fn to_bytes(&self) -> (r: Vec<u8>)
        ensures
            r@ == spec_slots_bytes(self@),
    {
        let mut out: Vec<u8> = Vec::new();
        self.write_bytes(&mut out);
        assert(out@ =~= spec_slots_bytes(self@));
        out
    }
}

/// What a node of the trie is, seen from a contract.
pub enum TrieView {
    Node { slots: Seq<Option<Pointer>> },
    Extension { affix: Seq<u8>, pointer: Pointer },
}

impl View for Trie {
    type V = TrieView;

    open spec fn view(&self) -> TrieView {
        match self {
            Trie::Node { pointer_block } => TrieView::Node { slots: pointer_block@ },
            Trie::Extension { affix, pointer } => TrieView::Extension {
                affix: affix@,
                pointer: *pointer,
            },
        }
    }
}

/// The encoding of a node of the trie: a tag for its variant, then, for a
/// node, its places, and for an extension, its path and its pointer.
pub open spec fn spec_trie_bytes(trie: TrieView) -> Seq<u8> {
    match trie {
        TrieView::Node { slots } => seq![1u8] + spec_slots_bytes(slots),
        TrieView::Extension { affix, pointer } => seq![2u8] + spec_affix_bytes(affix)
            + spec_pointer_bytes(pointer),
    }
}

/// Whether a node of the trie can be encoded: the path of an extension
/// must be short enough for its length to be written.
pub open spec fn trie_fits(trie: TrieView) -> bool {
    match trie {
        TrieView::Node { .. } => true,
        TrieView::Extension { affix, .. } => affix.len() <= u32::MAX,
    }
}

impl Trie {
    /// Appends the encoding of the node to `writer`.
    pub fn write_bytes(&self, writer: &mut Vec<u8>)
        requires
            trie_fits(self@),
        ensures
            final(writer)@ == old(writer)@ + spec_trie_bytes(self@),
    {
        match self {
            Trie::Node { pointer_block } => {
                writer.push(1);
                pointer_block.write_bytes(writer);
                assert(writer@ =~= old(writer)@ + spec_trie_bytes(self@));
            },
            Trie::Extension { affix, pointer } => {
                writer.push(2);
                let path = affix_to_bytes(affix);
                append_bytes(writer, path.as_slice());
                let target = pointer_to_bytes(pointer);
                append_bytes(writer, target.as_slice());
                assert(writer@ =~= old(writer)@ + spec_trie_bytes(self@));
            },
        }
    }

    /// The encoding of the node.
    pub fn to_bytes(&self) -> (r: Vec<u8>)
        requires
            trie_fits(self@),
        ensures
            r@ == spec_trie_bytes(self@),
    {
        let mut out: Vec<u8> = Vec::new();
        self.write_bytes(&mut out);
        assert(out@ =~= spec_trie_bytes(self@));
        out
    }
}

/// What a step of a proof is, seen from a contract.
pub enum ProofStepView {
    Node { hole_index: u8, pointers: Seq<(u8, Pointer)> },
    Extension { affix: Seq<u8> },
}

impl View for TrieMerkleProofStep {
    type V = ProofStepView;

    open spec fn view(&self) -> ProofStepView {
        match self {
            TrieMerkleProofStep::Node { hole_index, indexed_pointers_with_hole } => {
                ProofStepView::Node {
                    hole_index: *hole_index,
                    pointers: indexed_pointers_with_hole@,
                }
            },
            TrieMerkleProofStep::Extension { affix } => ProofStepView::Extension { affix: affix@ },
        }
    }
}

/// The pointer that a step of a proof puts into its node: to a leaf for
/// the first step, to a node for every later one.
pub open spec fn spec_step_pointer(index: nat, hash: Addr) -> Pointer {
    if index == 0 {
        Pointer::LeafPointer(hash)
    } else {
        Pointer::NodePointer(hash)
    }
}

/// The node that a step of a proof passes through, made whole again with the
/// pointer to where the proof came from.
pub open spec fn spec_step_trie(step: ProofStepView, pointer: Pointer) -> TrieView {
    match step {
        ProofStepView::Node { hole_index, pointers } => TrieView::Node {
            slots: spec_slots_of(pointers.push((hole_index, pointer))),
        },
        ProofStepView::Extension { affix } => TrieView::Extension { affix, pointer },
    }
}

/// The node that a step of a proof passes through, made whole again with
/// `pointer`.
pub fn step_trie(step: TrieMerkleProofStep, pointer: Pointer) -> (r: Trie)
    ensures
        r@ == spec_step_trie(step@, pointer),
{
    match step {
        TrieMerkleProofStep::Node { hole_index, indexed_pointers_with_hole } => {
            let mut indexed_pointers = indexed_pointers_with_hole;
            indexed_pointers.push((hole_index, pointer));
            Trie::Node { pointer_block: PointerBlock::from_indexed_pointers(&indexed_pointers) }
        },
        TrieMerkleProofStep::Extension { affix } => Trie::Extension { affix, pointer },
    }
}

/// Whether the node of a step can be encoded.
pub open spec fn step_fits(step: ProofStepView) -> bool {
    match step {
        ProofStepView::Node { .. } => true,
        ProofStepView::Extension { affix } => affix.len() <= u32::MAX,
    }
}

/// Whether every step of a proof can be encoded.
pub open spec fn steps_fit(steps: Seq<TrieMerkleProofStep>) -> bool {
    forall|i: int| 0 <= i < steps.len() ==> step_fits((#[trigger] steps[i])@)
}

/// The hash of the state that a proof leads to from the hash of a leaf:
/// each step hashes the node that it passes through. A proof without steps
/// leads to the leaf itself; for any other the host is asked for a hash,
/// and this host computes none.
pub fn compute_state_hash(host: &Host, trie_leaf_hash: Addr, proof_steps: Vec<
    TrieMerkleProofStep,
>) -> (r: Result<Addr, ApiError>)
    requires
        steps_fit(proof_steps@),
    ensures
        r == (if proof_steps@.len() == 0 {
            Ok::<Addr, ApiError>(trie_leaf_hash)
        } else {
            Err::<Addr, ApiError>(ApiError::InvalidArgument)
        }),
{
    let mut steps = proof_steps;
    let mut hash = trie_leaf_hash;
    let mut proof_step_index: usize = 0;
    while steps.len() > 0
        invariant
            steps@ == proof_steps@,
            steps_fit(steps@),
            hash == trie_leaf_hash,
            proof_step_index == 0,
        decreases steps.len(),
    {
        assert(step_fits(steps@[0]@));
        let proof_step = steps.remove(0);
        let pointer = if proof_step_index == 0 {
            Pointer::LeafPointer(hash)
        } else {
            Pointer::NodePointer(hash)
        };
        let proof_step_bytes = step_trie(proof_step, pointer).to_bytes();
        match generic_hash(host, HashAlgorithm::Blake2b, proof_step_bytes.as_slice()) {
            Ok(next) => {
                hash = next;
                proof_step_index += 1;
            },
            Err(e) => {
                return Err(e);
            },
        }
    }
    Ok(hash)
}

} // verus!
