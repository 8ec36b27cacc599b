use multihash::MultihashDigest;
use quick_protobuf::MessageRead;
use unixfs_car::{empty_item, gen_block, gen_dir, gen_pbnode_from_blocks, try_file_node};

/// Reads a DAG-PB node back from its serialized bytes.
fn read_node(bytes: &[u8]) -> unixfs_v1::PBNode<'_> {
    let mut reader = quick_protobuf::BytesReader::from_bytes(bytes);
    unixfs_v1::PBNode::from_reader(&mut reader, bytes).unwrap()
}

/// The identifier the library should produce, recomputed directly from the
/// hashing and identifier crates.
fn expected_cid(codec: u64, bytes: &[u8]) -> Vec<u8> {
    let digest = multihash::Code::Blake2b256.digest(bytes);
    cid::Cid::new_v1(codec, digest).to_bytes()
}

#[test]
fn block_determinism_same_content() {
    let a = gen_block(b"hello");
    let b = gen_block(b"hello");
    assert_eq!(a.cid, b.cid);
    assert_eq!(a.data, b.data);
    assert_eq!(a.size, b.size);
}

#[test]
fn block_different_content_different_identifier() {
    let a = gen_block(b"hello");
    let b = gen_block(b"world");
    assert_ne!(a.cid, b.cid);
}

#[test]
fn block_fields() {
    let b = gen_block(b"abc");
    assert_eq!(b.data, b"abc".to_vec());
    assert_eq!(b.size, 3);
    assert_eq!(b.name, None);
    assert_eq!(b.cid, expected_cid(0x55, b"abc"));
    assert_eq!(b.cid.len(), 38);
    assert_eq!(&b.cid[..2], &[0x01, 0x55]);
    assert_eq!(&b.cid[2..6], &[0xa0, 0xe4, 0x02, 0x20]);
}

#[test]
fn block_empty_content() {
    let b = gen_block(b"");
    assert_eq!(b.size, 0);
    assert_eq!(b.data, Vec::<u8>::new());
    assert_eq!(b.cid, expected_cid(0x55, b""));
}

#[test]
fn empty_item_idempotent() {
    let a = empty_item();
    let b = empty_item();
    assert_eq!(a.cid, b.cid);
    assert_eq!(a.data, b.data);
    assert_eq!(a.size, 0);
    assert_eq!(a.name, None);
}

#[test]
fn empty_item_exact_bytes() {
    // DAG-PB node with no links embedding the UnixFS message { Type: Raw }:
    // field 1 (Data), length 2, then field 1 (Type) varint 0.
    let e = empty_item();
    assert_eq!(e.data, vec![0x0a, 0x02, 0x08, 0x00]);
    assert_eq!(e.cid, expected_cid(0x70, &[0x0a, 0x02, 0x08, 0x00]));
}

#[test]
fn empty_dir_exact_bytes_and_size() {
    // DAG-PB node with no links embedding { Type: Directory }: the type
    // enum value is 1.
    let d = gen_dir(None, &Vec::new());
    assert_eq!(d.data, vec![0x0a, 0x02, 0x08, 0x01]);
    assert_eq!(d.cid, expected_cid(0x70, &[0x0a, 0x02, 0x08, 0x01]));
    assert_eq!(d.size, 0);
    assert_eq!(d.name, None);
    let again = gen_dir(None, &Vec::new());
    assert_eq!(d.cid, again.cid);
}

#[test]
fn dir_size_is_sum_of_item_sizes_only() {
    let b1 = gen_block(b"abc");
    let b2 = gen_block(b"hello");
    let items = vec![b1, b2];
    let d = gen_dir(Some("top".to_string()), &items);
    assert_eq!(d.size, 8);
    assert_eq!(d.name, Some("top".to_string()));
    assert!(d.data.len() > 0);
}

#[test]
fn dir_link_order_mirrors_item_order() {
    let b1 = gen_block(b"abc");
    let b2 = gen_block(b"hello");
    let cid1 = b1.cid.clone();
    let cid2 = b2.cid.clone();
    let f1 = gen_pbnode_from_blocks("one".to_string(), &vec![b1]);
    let f2 = gen_pbnode_from_blocks("two".to_string(), &vec![b2]);
    let d = gen_dir(Some("top".to_string()), &vec![f1, f2]);
    let node = read_node(&d.data);
    assert_eq!(node.Links.len(), 2);
    assert_eq!(node.Links[0].Name.as_deref(), Some("one"));
    assert_eq!(node.Links[1].Name.as_deref(), Some("two"));
    // The links carry the file nodes' identifiers, in input order; those in
    // turn differ because the underlying blocks differ.
    assert_ne!(node.Links[0].Hash, node.Links[1].Hash);
    assert_ne!(
        node.Links[0].Hash.as_deref().unwrap(),
        cid1.as_slice()
    );
    let _ = cid2;
}

#[test]
fn file_node_accounting_and_order() {
    let b1 = gen_block(b"abc");
    let b2 = gen_block(b"hello");
    let cid1 = b1.cid.clone();
    let cid2 = b2.cid.clone();
    let blocks = vec![b1, b2];
    let f = gen_pbnode_from_blocks("f".to_string(), &blocks);

    // The UnixFS metadata: File type (2), filesize 3 + 5 = 8, blocksizes
    // [3, 5] in block order.
    let expected_meta = vec![0x08, 0x02, 0x18, 0x08, 0x20, 0x03, 0x20, 0x05];
    let node = read_node(&f.data);
    assert_eq!(node.Data.as_deref().unwrap(), expected_meta.as_slice());

    // One unnamed link per block, in block order, with the block sizes.
    assert_eq!(node.Links.len(), 2);
    assert_eq!(node.Links[0].Hash.as_deref().unwrap(), cid1.as_slice());
    assert_eq!(node.Links[1].Hash.as_deref().unwrap(), cid2.as_slice());
    assert_eq!(node.Links[0].Name, None);
    assert_eq!(node.Links[1].Name, None);
    assert_eq!(node.Links[0].Tsize, Some(3));
    assert_eq!(node.Links[1].Tsize, Some(5));

    // Node size: own serialized length plus total file size.
    // Each link serializes to 42 bytes (2 + 38 identifier + 2), framed in 2,
    // and the metadata takes 2 + 8; 44 + 44 + 10 = 98 bytes in all.
    assert_eq!(f.data.len(), 98);
    assert_eq!(f.size, 98 + 8);
    assert_eq!(f.name, Some("f".to_string()));
    assert_eq!(f.cid, expected_cid(0x70, &f.data));
}

#[test]
fn file_node_no_blocks() {
    let f = gen_pbnode_from_blocks("empty".to_string(), &Vec::new());
    // Metadata: File type, filesize 0, no blocksizes.
    let node = read_node(&f.data);
    assert_eq!(node.Data.as_deref().unwrap(), &[0x08, 0x02, 0x18, 0x00]);
    assert_eq!(node.Links.len(), 0);
    assert_eq!(f.size, f.data.len() as u64);
}

#[test]
fn try_file_node_matches_builder() {
    let blocks = vec![gen_block(b"abc"), gen_block(b"hello")];
    let f = try_file_node("f".to_string(), &blocks).unwrap();
    let g = gen_pbnode_from_blocks("f".to_string(), &blocks);
    assert_eq!(f.cid, g.cid);
    assert_eq!(f.data, g.data);
    assert_eq!(f.size, g.size);
}

#[test]
fn to_link_carries_identifier_and_size() {
    let b = gen_block(b"hello");
    let link = b.to_link();
    assert_eq!(link.hash, b.cid);
    assert_eq!(link.tsize, 5);
    assert_eq!(link.name, None);
}
