use casper_types::bytesrepr::ToBytes;
use veles_casper::env::EnvBuilder;
use veles_casper::error::ApiError;
use veles_casper::host::Host;
use veles_casper::trie::{
    compute_state_hash, step_trie, Pointer, PointerBlock, Trie, TrieMerkleProofStep,
};

fn node(hash: [u8; 32]) -> casper_types::Pointer {
    casper_types::Pointer::NodePointer(casper_types::Digest::from_raw(hash))
}

fn leaf(hash: [u8; 32]) -> casper_types::Pointer {
    casper_types::Pointer::LeafPointer(casper_types::Digest::from_raw(hash))
}

#[test]
fn a_block_keeps_the_later_pointer_of_a_place() {
    let block = PointerBlock::from_indexed_pointers(&vec![
        (3, Pointer::LeafPointer([1; 32])),
        (200, Pointer::NodePointer([2; 32])),
        (3, Pointer::NodePointer([3; 32])),
    ]);
    assert_eq!(block.get(3), Some(Pointer::NodePointer([3; 32])));
    assert_eq!(block.get(200), Some(Pointer::NodePointer([2; 32])));
    assert_eq!(block.get(0), None);
    assert_eq!(block.get(255), None);
    assert_eq!(block.serialized_length(), 254 + 2 * 34);
    assert_eq!(block.to_bytes().len(), 254 + 2 * 34);
}

#[test]
fn a_block_is_written_place_by_place() {
    let block = PointerBlock::from_indexed_pointers(&vec![
        (0, Pointer::LeafPointer([7; 32])),
        (255, Pointer::NodePointer([9; 32])),
    ]);
    let mut expected: Vec<u8> = Vec::new();
    for place in 0..256usize {
        let slot: Option<casper_types::Pointer> = match place {
            0 => Some(leaf([7; 32])),
            255 => Some(node([9; 32])),
            _ => None,
        };
        expected.extend(slot.to_bytes().unwrap());
    }
    assert_eq!(block.to_bytes(), expected);

    let empty = PointerBlock::from_indexed_pointers(&Vec::new());
    assert_eq!(empty.to_bytes(), vec![0u8; 256]);
    let mut writer = vec![5u8];
    empty.write_bytes(&mut writer);
    assert_eq!(writer.len(), 257);
    assert_eq!(writer[0], 5);
}

#[test]
fn trie_nodes_are_tagged() {
    let node_trie = Trie::Node {
        pointer_block: PointerBlock::from_indexed_pointers(&vec![(1, Pointer::LeafPointer([4; 32]))]),
    };
    let bytes = node_trie.to_bytes();
    assert_eq!(bytes[0], 1);
    assert_eq!(bytes.len(), 1 + 255 + 34);
    assert_eq!(&bytes[1..3], &[0, 1]);
    assert_eq!(bytes[3], 0);
    assert_eq!(&bytes[4..36], &[4u8; 32]);

    let extension = Trie::Extension {
        affix: vec![10, 11, 12],
        pointer: Pointer::NodePointer([6; 32]),
    };
    let mut expected = vec![2u8, 3, 0, 0, 0, 10, 11, 12];
    expected.extend(node([6; 32]).to_bytes().unwrap());
    assert_eq!(extension.to_bytes(), expected);
    assert_eq!(expected[8], 1);
}

#[test]
fn a_step_is_made_whole_with_its_pointer() {
    let step = TrieMerkleProofStep::Node {
        hole_index: 9,
        indexed_pointers_with_hole: vec![(1, Pointer::NodePointer([1; 32]))],
    };
    let whole = step_trie(step, Pointer::LeafPointer([5; 32]));
    match &whole {
        Trie::Node { pointer_block } => {
            assert_eq!(pointer_block.get(9), Some(Pointer::LeafPointer([5; 32])));
            assert_eq!(pointer_block.get(1), Some(Pointer::NodePointer([1; 32])));
        }
        Trie::Extension { .. } => panic!("a node step makes a node"),
    }
    let step = TrieMerkleProofStep::Extension { affix: vec![1, 2] };
    assert_eq!(
        step_trie(step, Pointer::NodePointer([5; 32])),
        Trie::Extension { affix: vec![1, 2], pointer: Pointer::NodePointer([5; 32]) }
    );
}

#[test]
fn a_proof_without_steps_leads_to_its_leaf() {
    let mut host = Host::new();
    host.begin_dispatch(EnvBuilder::new().build());
    assert_eq!(compute_state_hash(&host, [8; 32], Vec::new()), Ok([8; 32]));
    let steps = vec![TrieMerkleProofStep::Extension { affix: vec![1] }];
    assert_eq!(
        compute_state_hash(&host, [8; 32], steps),
        Err(ApiError::InvalidArgument)
    );
}
