use vstd::prelude::*;
use vstd::slice::slice_to_vec;

use crate::cids::{cid_of, make_cid, DAG_PB_CODEC, RAW_CODEC};
use crate::codec::{
    encode_pb_node, encode_unixfs_data, links_view, pb_node_encoding, unixfs_data_encoding, Link,
    LinkView, NodeKind,
};

verus! {

/// An immutable DAG node or leaf block: an optional name, the identifier of
/// its bytes, the bytes themselves, and its advertised cumulative size.
pub struct UnixFsStruct {
    pub name: Option<String>,
    pub cid: Vec<u8>,
    pub data: Vec<u8>,
    pub size: u64,
}

/// Mathematical image of a `UnixFsStruct`.
#[verifier::ext_equal]
pub ghost struct NodeView {
    pub name: Option<Seq<char>>,
    pub cid: Seq<u8>,
    pub data: Seq<u8>,
    pub size: u64,
}

impl View for UnixFsStruct {
    type V = NodeView;

    open spec fn view(&self) -> NodeView {
        NodeView {
            name: match self.name {
                Some(s) => Some(s@),
                None => None,
            },
            cid: self.cid@,
            data: self.data@,
            size: self.size,
        }
    }
}

pub open spec fn name_view(name: Option<String>) -> Option<Seq<char>> {
    match name {
        Some(s) => Some(s@),
        None => None,
    }
}

pub open spec fn node_views(items: Seq<UnixFsStruct>) -> Seq<NodeView> {
    items.map_values(|n: UnixFsStruct| n@)
}

pub open spec fn sizes_of(items: Seq<NodeView>) -> Seq<u64> {
    items.map_values(|n: NodeView| n.size)
}

pub open spec fn sum_sizes(s: Seq<u64>) -> int
    decreases s.len(),
{
    if s.len() == 0 {
        0
    } else {
        sum_sizes(s.drop_last()) + s.last()
    }
}

pub proof fn lemma_sum_sizes_nonneg(s: Seq<u64>)
    ensures
        sum_sizes(s) >= 0,
    decreases s.len(),
{
    if s.len() > 0 {
        lemma_sum_sizes_nonneg(s.drop_last());
    }
}

pub proof fn lemma_sum_take_succ(s: Seq<u64>, i: int)
    requires
        0 <= i < s.len(),
    ensures
        sum_sizes(s.take(i + 1)) == sum_sizes(s.take(i)) + s[i],
{
    assert(s.take(i + 1).drop_last() =~= s.take(i));
    assert(s.take(i + 1).last() == s[i]);
}

pub proof fn lemma_sum_take_le(s: Seq<u64>, i: int)
    requires
        0 <= i <= s.len(),
    ensures
        sum_sizes(s.take(i)) <= sum_sizes(s),
    decreases s.len() - i,
{
    if i < s.len() {
        lemma_sum_take_succ(s, i);
        lemma_sum_take_le(s, i + 1);
    } else {
        assert(s.take(i) =~= s);
    }
}

/// The view of the block a leaf builder produces from `content`.
pub open spec fn block_view_of(content: Seq<u8>) -> NodeView {
    NodeView {
        name: None,
        cid: cid_of(RAW_CODEC, content),
        data: content,
        size: content.len() as u64,
    }
}

/// Wraps pre-chunked raw bytes as an addressable leaf block: the identifier
/// is computed over the content with the raw codec tag, the content is stored
/// verbatim, and the size is the byte length.
pub fn gen_block(content: &[u8]) -> (r: UnixFsStruct)
    ensures
        r@ == block_view_of(content@),
{
    let cid = make_cid(RAW_CODEC, content);
    let size = content.len() as u64;
    UnixFsStruct { name: None, cid, data: slice_to_vec(content), size }
}

impl UnixFsStruct {
    /// The link a parent node embeds for this node: unnamed, carrying the
    /// node's identifier and its advertised size.
    pub fn to_link(&self) -> (r: Link)
        ensures
            r@ == (LinkView { name: None, hash: self.cid@, tsize: self.size }),
    {
        Link { name: None, hash: slice_to_vec(self.cid.as_slice()), tsize: self.size }
    }
}

/// The serialized bytes of the canonical empty node: a Raw-typed UnixFS
/// message with no content, embedded in a DAG-PB node with no links.
pub open spec fn empty_node_data() -> Seq<u8> {
    pb_node_encoding(
        Seq::empty(),
        unixfs_data_encoding(NodeKind::Raw, None, Seq::empty()),
    )
}

/// The view of the canonical empty node; its bytes and identifier are fixed.
pub open spec fn empty_node_view() -> NodeView {
    NodeView {
        name: None,
        cid: cid_of(DAG_PB_CODEC, empty_node_data()),
        data: empty_node_data(),
        size: 0,
    }
}

/// The canonical zero-size node: no name, no links, no embedded content.
/// Every call yields the same bytes and the same identifier.  It serves as
/// the default archive root and as the substitute for unresolved file
/// references.
pub fn empty_item() -> (r: UnixFsStruct)
    ensures
        r@ == empty_node_view(),
        r.cid@.len() == 38,
{
    let no_sizes: Vec<u64> = Vec::new();
    let data_bytes = encode_unixfs_data(NodeKind::Raw, None, &no_sizes);
    let no_links: Vec<Link> = Vec::new();
    let node_bytes = encode_pb_node(&no_links, &data_bytes);
    proof {
        assert(links_view(Seq::empty()) =~= Seq::<LinkView>::empty());
    }
    let cid = make_cid(DAG_PB_CODEC, node_bytes.as_slice());
    UnixFsStruct { name: None, cid, data: node_bytes, size: 0 }
}

/// The link a directory embeds for a child: the child's own name, identifier
/// and advertised size.
pub open spec fn dir_link_of(n: NodeView) -> LinkView {
    LinkView { name: n.name, hash: n.cid, tsize: n.size }
}

pub open spec fn dir_links_of(items: Seq<NodeView>) -> Seq<LinkView> {
    items.map_values(|n: NodeView| dir_link_of(n))
}

/// The serialized bytes of a directory node over the given children.
pub open spec fn dir_data_of(items: Seq<NodeView>) -> Seq<u8> {
    pb_node_encoding(
        dir_links_of(items),
        unixfs_data_encoding(NodeKind::Directory, None, Seq::empty()),
    )
}

/// The view of a directory node: one named link per item in item order, and
/// a size that is the sum of the item sizes only - the node's own serialized
/// bytes are deliberately excluded from the size.
pub open spec fn dir_view_of(name: Option<Seq<char>>, items: Seq<NodeView>) -> NodeView {
    NodeView {
        name,
        cid: cid_of(DAG_PB_CODEC, dir_data_of(items)),
        data: dir_data_of(items),
        size: sum_sizes(sizes_of(items)) as u64,
    }
}

/// Builds a Directory node over already-built child nodes.  Link order
/// mirrors item order exactly; the node's size is the sum of the item sizes,
/// its own serialized bytes excluded.
pub fn gen_dir(name: Option<String>, items: &Vec<UnixFsStruct>) -> (r: UnixFsStruct)
    requires
        sum_sizes(sizes_of(node_views(items@))) <= u64::MAX,
    ensures
        r@ == dir_view_of(name_view(name), node_views(items@)),
{
    let ghost views = node_views(items@);
    let ghost all_sizes = sizes_of(views);
    let mut links: Vec<Link> = Vec::new();
    let mut dir_size: u64 = 0;
    let mut i: usize = 0;
    while i < items.len()
        invariant
            i <= items@.len(),
            views == node_views(items@),
            all_sizes == sizes_of(views),
            sum_sizes(all_sizes) <= u64::MAX,
            links@.len() == i,
            links_view(links@) =~= dir_links_of(views.take(i as int)),
            dir_size == sum_sizes(all_sizes.take(i as int)),
        decreases items@.len() - i,
    {
        proof {
            lemma_sum_take_succ(all_sizes, i as int);
            lemma_sum_take_le(all_sizes, i + 1);
            lemma_sum_sizes_nonneg(all_sizes.take(i as int));
        }
        let item_name = match &items[i].name {
            Some(s) => Some(s.clone()),
            None => None,
        };
        let link = Link {
            name: item_name,
            hash: slice_to_vec(items[i].cid.as_slice()),
            tsize: items[i].size,
        };
        proof {
            assert(link@ == dir_link_of(views[i as int]));
            assert(views.take(i + 1).drop_last() =~= views.take(i as int));
            let next = links_view(links@.push(link));
            let want = dir_links_of(views.take(i + 1));
            assert forall|j: int| 0 <= j < i + 1 implies next[j] == want[j] by {
                assert(next[j] == links@.push(link)[j]@);
                assert(want[j] == dir_link_of(views.take(i + 1)[j]));
                if j < i {
                    assert(links_view(links@)[j] == dir_links_of(views.take(i as int))[j]);
                    assert(links_view(links@)[j] == links@[j]@);
                    assert(dir_links_of(views.take(i as int))[j] == dir_link_of(
                        views.take(i as int)[j],
                    ));
                }
            }
            assert(next =~= want);
        }
        links.push(link);
        dir_size = dir_size + items[i].size;
        i = i + 1;
    }
    proof {
        assert(views.take(i as int) =~= views);
        assert(all_sizes.take(i as int) =~= all_sizes);
    }
    let unixfs_bytes = encode_unixfs_data(NodeKind::Directory, None, &Vec::new());
    let node_bytes = encode_pb_node(&links, &unixfs_bytes);
    let cid = make_cid(DAG_PB_CODEC, node_bytes.as_slice());
    UnixFsStruct { name, cid, data: node_bytes, size: dir_size }
}

/// The link a file node embeds for one of its blocks: unnamed, carrying the
/// block's identifier and size.
pub open spec fn file_link_of(n: NodeView) -> LinkView {
    LinkView { name: None, hash: n.cid, tsize: n.size }
}

pub open spec fn file_links_of(blocks: Seq<NodeView>) -> Seq<LinkView> {
    blocks.map_values(|n: NodeView| file_link_of(n))
}

/// The serialized bytes of a file node over the given blocks: File-typed
/// UnixFS metadata carrying the total file size and the block sizes in block
/// order, embedded with one unnamed link per block.
pub open spec fn file_data_of(blocks: Seq<NodeView>) -> Seq<u8> {
    pb_node_encoding(
        file_links_of(blocks),
        unixfs_data_encoding(
            NodeKind::File,
            Some(sum_sizes(sizes_of(blocks)) as u64),
            sizes_of(blocks),
        ),
    )
}

/// Whether a file node over these blocks stays within the machine limits:
/// the total file size and the advertised node size must both fit in 64 bits.
pub open spec fn file_node_fits(blocks: Seq<NodeView>) -> bool {
    &&& sum_sizes(sizes_of(blocks)) <= u64::MAX
    &&& file_data_of(blocks).len() + sum_sizes(sizes_of(blocks)) <= u64::MAX
}

/// The view of a file node: its size is the length of its own serialized
/// bytes plus the sum of the block sizes - the node's own cost included, in
/// deliberate contrast to directory nodes.
pub open spec fn file_view_of(name: Seq<char>, blocks: Seq<NodeView>) -> NodeView {
    NodeView {
        name: Some(name),
        cid: cid_of(DAG_PB_CODEC, file_data_of(blocks)),
        data: file_data_of(blocks),
        size: (file_data_of(blocks).len() + sum_sizes(sizes_of(blocks))) as u64,
    }
}

/// Builds a File node over the given blocks, or reports that its size
/// accounting would not fit in 64 bits.  Returns `Some` exactly when
/// `file_node_fits` holds of the blocks.
pub fn try_file_node(name: String, blocks: &Vec<UnixFsStruct>) -> (r: Option<UnixFsStruct>)
    ensures
        match r {
            Some(node) => file_node_fits(node_views(blocks@)) && node@ == file_view_of(
                name@,
                node_views(blocks@),
            ),
            None => !file_node_fits(node_views(blocks@)),
        },
{
    let ghost views = node_views(blocks@);
    let ghost all_sizes = sizes_of(views);
    let mut links: Vec<Link> = Vec::new();
    let mut blocksizes: Vec<u64> = Vec::new();
    let mut filesize: u64 = 0;
    let mut i: usize = 0;
    while i < blocks.len()
        invariant
            i <= blocks@.len(),
            views == node_views(blocks@),
            all_sizes == sizes_of(views),
            links@.len() == i,
            links_view(links@) =~= file_links_of(views.take(i as int)),
            blocksizes@ =~= all_sizes.take(i as int),
            filesize == sum_sizes(all_sizes.take(i as int)),
        decreases blocks@.len() - i,
    {
        proof {
            lemma_sum_take_succ(all_sizes, i as int);
        }
        let link = blocks[i].to_link();
        proof {
            assert(link@ == file_link_of(views[i as int]));
            assert(views.take(i + 1).drop_last() =~= views.take(i as int));
            let next = links_view(links@.push(link));
            let want = file_links_of(views.take(i + 1));
            assert forall|j: int| 0 <= j < i + 1 implies next[j] == want[j] by {
                assert(next[j] == links@.push(link)[j]@);
                assert(want[j] == file_link_of(views.take(i + 1)[j]));
                if j < i {
                    assert(links_view(links@)[j] == file_links_of(views.take(i as int))[j]);
                    assert(links_view(links@)[j] == links@[j]@);
                    assert(file_links_of(views.take(i as int))[j] == file_link_of(
                        views.take(i as int)[j],
                    ));
                }
            }
            assert(next =~= want);
            assert(all_sizes.take(i + 1) =~= all_sizes.take(i as int).push(all_sizes[i as int]));
        }
        let step = match filesize.checked_add(blocks[i].size) {
            Some(s) => s,
            None => {
                proof {
                    lemma_sum_take_le(all_sizes, i + 1);
                }
                return None;
            },
        };
        links.push(link);
        blocksizes.push(blocks[i].size);
        filesize = step;
        i = i + 1;
    }
    proof {
        assert(views.take(i as int) =~= views);
        assert(all_sizes.take(i as int) =~= all_sizes);
    }
    let unixfs_bytes = encode_unixfs_data(NodeKind::File, Some(filesize), &blocksizes);
    let node_bytes = encode_pb_node(&links, &unixfs_bytes);
    let node_len = node_bytes.len() as u64;
    let size = match node_len.checked_add(filesize) {
        Some(s) => s,
        None => {
            return None;
        },
    };
    let cid = make_cid(DAG_PB_CODEC, node_bytes.as_slice());
    Some(UnixFsStruct { name: Some(name), cid, data: node_bytes, size })
}

/// Builds a File node over the given blocks.  The advertised total file size
/// is the sum of the block sizes, the blocksizes list mirrors block order,
/// one unnamed link is embedded per block in block order, and the node size
/// is its serialized byte length plus the total file size.
pub fn gen_pbnode_from_blocks(name: String, blocks: &Vec<UnixFsStruct>) -> (r: UnixFsStruct)
    requires
        file_node_fits(node_views(blocks@)),
    ensures
        r@ == file_view_of(name@, node_views(blocks@)),
{
    match try_file_node(name, blocks) {
        Some(node) => node,
        None => vstd::pervasive::unreached(),
    }
}

} // verus!
