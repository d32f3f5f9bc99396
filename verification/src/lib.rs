//! A development kit for guest programs that talk to a host-provided state
//! store through a narrow byte-level call boundary, together with an
//! in-memory host that keeps the state model, the buffer-transfer protocol
//! and the failure semantics of the host of a node.

pub mod address;
pub mod assoc;
pub mod base128;
pub mod client;
pub mod codec;
pub mod collections;
pub mod contract;
pub mod env;
pub mod error;
pub mod host;
pub mod laws;
pub mod modalities;
pub mod named_key;
pub mod node_address;
pub mod trace;
pub mod trie;
pub mod types;
pub mod utils;
