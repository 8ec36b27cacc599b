//! Builder for content-addressed archives.
//!
//! Pre-chunked byte blocks are wrapped as addressable leaves, a logical
//! file/directory tree is resolved bottom-up into UnixFS Merkle-DAG nodes,
//! and the whole object graph is serialized into a single CAR byte buffer:
//! a header declaring one root identifier, followed by ordered
//! (identifier, bytes) entries, the root written last.

pub mod car;
pub mod cids;
pub mod codec;
pub mod laws;
pub mod node;
pub mod tree;

pub use car::{gen_car, CAR_CAPACITY_HINT};
pub use cids::{DAG_PB_CODEC, RAW_CODEC};
pub use codec::{Link, NodeKind};
pub use node::{empty_item, gen_block, gen_dir, gen_pbnode_from_blocks, try_file_node, UnixFsStruct};
pub use tree::DirectoryItem;
