use vstd::prelude::*;

use crate::node::{empty_item, empty_node_view, node_views, NodeView, UnixFsStruct};

verus! {

/// Default capacity pre-allocated for an archive buffer, a performance hint
/// only: nothing enforces it as a ceiling.
pub const CAR_CAPACITY_HINT: usize = 104752742;

/// Unsigned LEB128: seven value bits per byte, low group first, high bit set
/// on every byte but the last.
pub open spec fn varint(n: nat) -> Seq<u8>
    decreases n,
{
    if n < 0x80 {
        seq![n as u8]
    } else {
        seq![((n % 0x80) + 0x80) as u8] + varint(n / 0x80)
    }
}

/// The CBOR prefix announcing a byte string of `n` bytes: major type 2 with
/// the shortest length form.
pub open spec fn cbor_bytes_prefix(n: u64) -> Seq<u8> {
    if n < 24 {
        seq![(0x40 + n) as u8]
    } else if n < 0x100 {
        seq![0x58u8, n as u8]
    } else if n < 0x10000 {
        seq![0x59u8, ((n >> 8) & 0xff) as u8, (n & 0xff) as u8]
    } else if n < 0x100000000 {
        seq![
            0x5au8,
            ((n >> 24) & 0xff) as u8,
            ((n >> 16) & 0xff) as u8,
            ((n >> 8) & 0xff) as u8,
            (n & 0xff) as u8,
        ]
    } else {
        seq![
            0x5bu8,
            ((n >> 56) & 0xff) as u8,
            ((n >> 48) & 0xff) as u8,
            ((n >> 40) & 0xff) as u8,
            ((n >> 32) & 0xff) as u8,
            ((n >> 24) & 0xff) as u8,
            ((n >> 16) & 0xff) as u8,
            ((n >> 8) & 0xff) as u8,
            (n & 0xff) as u8,
        ]
    }
}

/// The archive header payload: the CBOR map `{"roots": [root], "version": 1}`
/// with the root identifier carried as a tag-42 byte string, identity-prefixed
/// with one zero byte.  Keys appear in canonical order, "roots" first.
pub open spec fn car_header_payload(root_cid: Seq<u8>) -> Seq<u8> {
    seq![0xa2u8, 0x65u8, 0x72u8, 0x6fu8, 0x6fu8, 0x74u8, 0x73u8, 0x81u8, 0xd8u8, 0x2au8]
        + cbor_bytes_prefix((root_cid.len() + 1) as u64) + seq![0x00u8] + root_cid
        + seq![0x67u8, 0x76u8, 0x65u8, 0x72u8, 0x73u8, 0x69u8, 0x6fu8, 0x6eu8, 0x01u8]
}

/// The framed archive header: the payload preceded by its varint length.
pub open spec fn car_header(root_cid: Seq<u8>) -> Seq<u8> {
    varint(car_header_payload(root_cid).len()) + car_header_payload(root_cid)
}

/// One archive entry: identifier and bytes, preceded by their combined
/// varint length.
pub open spec fn car_entry(cid: Seq<u8>, data: Seq<u8>) -> Seq<u8> {
    varint((cid.len() + data.len()) as nat) + cid + data
}

/// The concatenated entries for the given nodes, in order.
pub open spec fn car_entries(blocks: Seq<NodeView>) -> Seq<u8>
    decreases blocks.len(),
{
    if blocks.len() == 0 {
        Seq::empty()
    } else {
        car_entries(blocks.drop_last()) + car_entry(blocks.last().cid, blocks.last().data)
    }
}

/// The complete archive: header declaring the root, every block in input
/// order, and the root entry last.
pub open spec fn car_bytes(blocks: Seq<NodeView>, root: NodeView) -> Seq<u8> {
    car_header(root.cid) + car_entries(blocks) + car_entry(root.cid, root.data)
}

/// Appends the unsigned LEB128 encoding of `n`.
fn write_varint(out: &mut Vec<u8>, n: u128)
    ensures
        final(out)@ == old(out)@ + varint(n as nat),
{
    let mut x = n;
    while x >= 0x80
        invariant
            out@ + varint(x as nat) == old(out)@ + varint(n as nat),
        decreases x,
    {
        let b = ((x % 0x80) + 0x80) as u8;
        proof {
            assert(varint(x as nat) == seq![b] + varint((x as nat) / 0x80));
            assert((out@ + seq![b]) + varint((x as nat) / 0x80) == out@ + (seq![b] + varint(
                (x as nat) / 0x80,
            ))) by {
                assert((out@ + seq![b]) + varint((x as nat) / 0x80) =~= out@ + (seq![b] + varint(
                    (x as nat) / 0x80,
                )));
            }
        }
        out.push(b);
        x = x / 0x80;
    }
    proof {
        assert(varint(x as nat) == seq![x as u8]);
    }
    out.push(x as u8);
}

/// Appends all of `src`.
fn append_bytes(out: &mut Vec<u8>, src: &[u8])
    ensures
        final(out)@ == old(out)@ + src@,
{
    let mut j: usize = 0;
    while j < src.len()
        invariant
            j <= src@.len(),
            out@ == old(out)@ + src@.take(j as int),
        decreases src@.len() - j,
    {
        proof {
            assert(src@.take(j + 1) =~= src@.take(j as int).push(src@[j as int]));
            assert(old(out)@ + src@.take(j + 1) =~= (old(out)@ + src@.take(j as int)).push(
                src@[j as int],
            ));
        }
        out.push(src[j]);
        j = j + 1;
    }
    proof {
        assert(src@.take(j as int) =~= src@);
    }
}

/// Appends the CBOR byte-string prefix for length `n`.
fn write_cbor_bytes_prefix(out: &mut Vec<u8>, n: u64)
    ensures
        final(out)@ == old(out)@ + cbor_bytes_prefix(n),
{
    if n < 24 {
        out.push((0x40 + n) as u8);
        proof {
            assert(out@ =~= old(out)@ + cbor_bytes_prefix(n));
        }
    } else if n < 0x100 {
        out.push(0x58);
        out.push(n as u8);
        proof {
            assert(out@ =~= old(out)@ + cbor_bytes_prefix(n));
        }
    } else if n < 0x10000 {
        out.push(0x59);
        out.push(((n >> 8) & 0xff) as u8);
        out.push((n & 0xff) as u8);
        proof {
            assert(out@ =~= old(out)@ + cbor_bytes_prefix(n));
        }
    } else if n < 0x100000000 {
        out.push(0x5a);
        out.push(((n >> 24) & 0xff) as u8);
        out.push(((n >> 16) & 0xff) as u8);
        out.push(((n >> 8) & 0xff) as u8);
        out.push((n & 0xff) as u8);
        proof {
            assert(out@ =~= old(out)@ + cbor_bytes_prefix(n));
        }
    } else {
        out.push(0x5b);
        out.push(((n >> 56) & 0xff) as u8);
        out.push(((n >> 48) & 0xff) as u8);
        out.push(((n >> 40) & 0xff) as u8);
        out.push(((n >> 32) & 0xff) as u8);
        out.push(((n >> 24) & 0xff) as u8);
        out.push(((n >> 16) & 0xff) as u8);
        out.push(((n >> 8) & 0xff) as u8);
        out.push((n & 0xff) as u8);
        proof {
            assert(out@ =~= old(out)@ + cbor_bytes_prefix(n));
        }
    }
}

/// Appends the framed archive header declaring `root_cid` as the single root.
fn write_car_header(out: &mut Vec<u8>, root_cid: &Vec<u8>)
    requires
        root_cid@.len() + 1 <= u64::MAX,
    ensures
        final(out)@ == old(out)@ + car_header(root_cid@),
{
    let mut payload: Vec<u8> = Vec::new();
    payload.push(0xa2);
    payload.push(0x65);
    payload.push(0x72);
    payload.push(0x6f);
    payload.push(0x6f);
    payload.push(0x74);
    payload.push(0x73);
    payload.push(0x81);
    payload.push(0xd8);
    payload.push(0x2a);
    write_cbor_bytes_prefix(&mut payload, (root_cid.len() as u64) + 1);
    payload.push(0x00);
    append_bytes(&mut payload, root_cid.as_slice());
    payload.push(0x67);
    payload.push(0x76);
    payload.push(0x65);
    payload.push(0x72);
    payload.push(0x73);
    payload.push(0x69);
    payload.push(0x6f);
    payload.push(0x6e);
    payload.push(0x01);
    proof {
        assert(payload@ =~= car_header_payload(root_cid@));
    }
    write_varint(out, payload.len() as u128);
    append_bytes(out, payload.as_slice());
    proof {
        assert(old(out)@ + varint(payload@.len()) + payload@ =~= old(out)@ + car_header(
            root_cid@,
        ));
    }
}

/// Appends one archive entry for the given identifier and bytes.
fn write_entry(out: &mut Vec<u8>, cid: &Vec<u8>, data: &Vec<u8>)
    ensures
        final(out)@ == old(out)@ + car_entry(cid@, data@),
{
    let len: u128 = cid.len() as u128 + data.len() as u128;
    write_varint(out, len);
    append_bytes(out, cid.as_slice());
    append_bytes(out, data.as_slice());
    proof {
        assert(old(out)@ + varint((cid@.len() + data@.len()) as nat) + cid@ + data@ =~= old(out)@
            + car_entry(cid@, data@));
    }
}

/// Serializes the blocks and the root into one self-contained archive
/// buffer: a header declaring the root's identifier, then every block's
/// (identifier, bytes) entry in input order, then the root's entry last.
/// When no root is supplied the canonical empty node takes its place.  The
/// blocks are consumed: their buffers are written exactly once and released
/// with the input vector.  Writing into an in-memory buffer cannot fail.
pub fn gen_car(blocks: Vec<UnixFsStruct>, root: Option<UnixFsStruct>) -> (r: Vec<u8>)
    requires
        (match root {
            Some(node) => node.cid@.len() + 1 <= u64::MAX,
            None => true,
        }),
    ensures
        r@ == car_bytes(
            node_views(blocks@),
            match root {
                Some(node) => node@,
                None => empty_node_view(),
            },
        ),
{
    let ghost views = node_views(blocks@);
    let root_node = match root {
        Some(node) => node,
        None => empty_item(),
    };
    let ghost root_view = root_node@;
    let mut buffer: Vec<u8> = Vec::with_capacity(CAR_CAPACITY_HINT);
    write_car_header(&mut buffer, &root_node.cid);
    let mut i: usize = 0;
    while i < blocks.len()
        invariant
            i <= blocks@.len(),
            views == node_views(blocks@),
            buffer@ == car_header(root_view.cid) + car_entries(views.take(i as int)),
        decreases blocks@.len() - i,
    {
        write_entry(&mut buffer, &blocks[i].cid, &blocks[i].data);
        proof {
            assert(views.take(i + 1).drop_last() =~= views.take(i as int));
            assert(views.take(i + 1).last() == views[i as int]);
            assert(car_header(root_view.cid) + car_entries(views.take(i as int)) + car_entry(
                blocks@[i as int]@.cid,
                blocks@[i as int]@.data,
            ) =~= car_header(root_view.cid) + car_entries(views.take(i + 1)));
        }
        i = i + 1;
    }
    proof {
        assert(views.take(i as int) =~= views);
    }
    write_entry(&mut buffer, &root_node.cid, &root_node.data);
    proof {
        assert(car_header(root_view.cid) + car_entries(views) + car_entry(
            root_view.cid,
            root_view.data,
        ) =~= car_bytes(views, root_view));
    }
    buffer
}

} // verus!
