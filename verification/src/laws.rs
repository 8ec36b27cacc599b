use vstd::prelude::*;

use crate::node::{
    block_view_of, dir_link_of, dir_links_of, dir_view_of, empty_node_view, file_link_of,
    file_links_of, file_node_fits, file_view_of, lemma_sum_sizes_nonneg, sizes_of, sum_sizes,
    NodeView,
};
use crate::tree::{resolve_spec, DirectoryItem};

verus! {

/// Determinism of block building: two blocks built from the same content
/// bytes carry the same identifier and the same stored bytes.
pub proof fn lemma_block_deterministic(a: NodeView, b: NodeView, content: Seq<u8>)
    requires
        a == block_view_of(content),
        b == block_view_of(content),
    ensures
        a.cid == b.cid,
        a.data == b.data,
        a == b,
{
}

/// Idempotence of the canonical empty node: every build yields the same
/// bytes and the same identifier.
pub proof fn lemma_empty_node_deterministic(a: NodeView, b: NodeView)
    requires
        a == empty_node_view(),
        b == empty_node_view(),
    ensures
        a.cid == b.cid,
        a.data == b.data,
        a == b,
{
}

/// File accounting: a file node's size is the length of its own serialized
/// bytes plus the sum of its block sizes, and the total file size carried in
/// its metadata is exactly that sum.
pub proof fn lemma_file_accounting(name: Seq<char>, blocks: Seq<NodeView>)
    requires
        file_node_fits(blocks),
    ensures
        file_view_of(name, blocks).size == file_view_of(name, blocks).data.len() + sum_sizes(
            sizes_of(blocks),
        ),
{
    lemma_sum_sizes_nonneg(sizes_of(blocks));
}

/// Directory accounting: a directory node's size is exactly the sum of its
/// item sizes; its own serialized bytes are excluded.
pub proof fn lemma_dir_accounting(name: Option<Seq<char>>, items: Seq<NodeView>)
    requires
        sum_sizes(sizes_of(items)) <= u64::MAX,
    ensures
        dir_view_of(name, items).size == sum_sizes(sizes_of(items)),
{
    lemma_sum_sizes_nonneg(sizes_of(items));
}

/// Order preservation for file nodes: the link list and the blocksizes list
/// mirror the block order exactly, with no reordering.
pub proof fn lemma_file_order(blocks: Seq<NodeView>, i: int)
    requires
        0 <= i < blocks.len(),
    ensures
        file_links_of(blocks).len() == blocks.len(),
        sizes_of(blocks).len() == blocks.len(),
        file_links_of(blocks)[i] == file_link_of(blocks[i]),
        file_links_of(blocks)[i].hash == blocks[i].cid,
        file_links_of(blocks)[i].tsize == blocks[i].size,
        sizes_of(blocks)[i] == blocks[i].size,
{
}

/// Order preservation for directory nodes: the link list mirrors the item
/// order exactly, each link carrying its item's name, identifier and size.
pub proof fn lemma_dir_order(items: Seq<NodeView>, i: int)
    requires
        0 <= i < items.len(),
    ensures
        dir_links_of(items).len() == items.len(),
        dir_links_of(items)[i] == dir_link_of(items[i]),
        dir_links_of(items)[i].name == items[i].name,
        dir_links_of(items)[i].hash == items[i].cid,
        dir_links_of(items)[i].tsize == items[i].size,
{
}

/// Fallback: resolving a file reference whose id is absent from the lookup
/// table yields a node identical to the canonical empty node.
pub proof fn lemma_resolve_unknown_id_is_empty(
    name: String,
    id: u64,
    table: Map<u64, Seq<NodeView>>,
)
    requires
        !table.contains_key(id),
    ensures
        resolve_spec(DirectoryItem::File(name, id), table) == empty_node_view(),
{
}

} // verus!
