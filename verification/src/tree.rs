use vstd::prelude::*;

use std::collections::HashMap;

use crate::node::{
    dir_view_of, empty_item, empty_node_view, file_node_fits, file_view_of, gen_dir,
    gen_pbnode_from_blocks, node_views, sizes_of, sum_sizes, NodeView, UnixFsStruct,
};

verus! {

broadcast use vstd::std_specs::hash::group_hash_axioms;

/// Blueprint of the desired archive layout.  A `File` carries a numeric id
/// that indexes into an externally supplied id-to-blocks table; a `Directory`
/// carries its ordered children.  No bytes are carried here.
pub enum DirectoryItem {
    File(String, u64),
    Directory(String, Vec<DirectoryItem>),
}

/// The mathematical image of the id-to-blocks lookup table.
pub open spec fn table_view(m: HashMap<u64, Vec<UnixFsStruct>>) -> Map<u64, Seq<NodeView>> {
    m@.map_values(|blocks: Vec<UnixFsStruct>| node_views(blocks@))
}

/// The node a blueprint item resolves to, bottom-up: a known file id becomes
/// a file node over the table's blocks, an unknown file id silently becomes
/// the canonical empty node, and a directory becomes a directory node over
/// its resolved children, in child order.
pub open spec fn resolve_spec(item: DirectoryItem, table: Map<u64, Seq<NodeView>>) -> NodeView
    decreases item,
{
    match item {
        DirectoryItem::File(name, id) => {
            if table.contains_key(id) {
                file_view_of(name@, table[id])
            } else {
                empty_node_view()
            }
        },
        DirectoryItem::Directory(name, children) => {
            dir_view_of(Some(name@), resolve_children(children@, table))
        },
    }
}

/// The nodes a sequence of blueprint items resolves to, in order.
pub open spec fn resolve_children(
    items: Seq<DirectoryItem>,
    table: Map<u64, Seq<NodeView>>,
) -> Seq<NodeView>
    decreases items,
{
    if items.len() == 0 {
        Seq::empty()
    } else {
        seq![resolve_spec(items[0], table)] + resolve_children(
            items.subrange(1, items.len() as int),
            table,
        )
    }
}

pub proof fn lemma_resolve_children_index(
    items: Seq<DirectoryItem>,
    table: Map<u64, Seq<NodeView>>,
)
    ensures
        resolve_children(items, table).len() == items.len(),
        forall|i: int|
            0 <= i < items.len() ==> resolve_children(items, table)[i] == resolve_spec(
                items[i],
                table,
            ),
    decreases items.len(),
{
    if items.len() > 0 {
        let tail = items.subrange(1, items.len() as int);
        lemma_resolve_children_index(tail, table);
        assert forall|i: int|
            0 <= i < items.len() implies resolve_children(items, table)[i] == resolve_spec(
            items[i],
            table,
        ) by {
            if i > 0 {
                assert(resolve_children(items, table)[i] == resolve_children(tail, table)[i - 1]);
                assert(tail[i - 1] == items[i]);
            }
        }
    }
}

/// Whether resolving a blueprint item stays within the machine limits: every
/// file node's accounting and every directory's size sum must fit in 64 bits.
pub open spec fn resolve_ok(item: DirectoryItem, table: Map<u64, Seq<NodeView>>) -> bool
    decreases item,
{
    match item {
        DirectoryItem::File(name, id) => {
            table.contains_key(id) ==> file_node_fits(table[id])
        },
        DirectoryItem::Directory(name, children) => {
            &&& children_ok(children@, table)
            &&& sum_sizes(sizes_of(resolve_children(children@, table))) <= u64::MAX
        },
    }
}

pub open spec fn children_ok(items: Seq<DirectoryItem>, table: Map<u64, Seq<NodeView>>) -> bool
    decreases items,
{
    items.len() == 0 || (resolve_ok(items[0], table) && children_ok(
        items.subrange(1, items.len() as int),
        table,
    ))
}

pub proof fn lemma_children_ok_index(
    items: Seq<DirectoryItem>,
    table: Map<u64, Seq<NodeView>>,
    i: int,
)
    requires
        children_ok(items, table),
        0 <= i < items.len(),
    ensures
        resolve_ok(items[i], table),
    decreases i,
{
    if i > 0 {
        let tail = items.subrange(1, items.len() as int);
        lemma_children_ok_index(tail, table, i - 1);
        assert(tail[i - 1] == items[i]);
    }
}

impl DirectoryItem {
    /// Resolves this blueprint item into a DAG node, post-order: children
    /// first, then the enclosing directory.  A file id missing from the
    /// table is silently replaced by the canonical empty node; no error is
    /// raised.  The lookup table is never mutated.
    pub fn to_unixfs_struct(&self, id_map: &HashMap<u64, Vec<UnixFsStruct>>) -> (r: UnixFsStruct)
        requires
            resolve_ok(*self, table_view(*id_map)),
        ensures
            r@ == resolve_spec(*self, table_view(*id_map)),
        decreases *self,
    {
        let ghost table = table_view(*id_map);
        match self {
            DirectoryItem::File(name, id) => {
                match id_map.get(id) {
                    Some(blocks) => {
                        proof {
                            assert(table.contains_key(*id));
                            assert(table[*id] == node_views(blocks@));
                        }
                        gen_pbnode_from_blocks(name.clone(), blocks)
                    },
                    None => {
                        proof {
                            assert(!table.contains_key(*id));
                        }
                        empty_item()
                    },
                }
            },
            DirectoryItem::Directory(name, children) => {
                let ghost resolved_views = resolve_children(children@, table);
                proof {
                    lemma_resolve_children_index(children@, table);
                }
                let mut resolved: Vec<UnixFsStruct> = Vec::new();
                let mut i: usize = 0;
                while i < children.len()
                    invariant
                        i <= children@.len(),
                        resolve_ok(*self, table),
                        self matches DirectoryItem::Directory(n, c) && c@ == children@,
                        resolved_views == resolve_children(children@, table),
                        resolved_views.len() == children@.len(),
                        forall|j: int|
                            0 <= j < children@.len() ==> resolved_views[j] == resolve_spec(
                                children@[j],
                                table,
                            ),
                        resolved@.len() == i,
                        node_views(resolved@) =~= resolved_views.take(i as int),
                        table == table_view(*id_map),
                    decreases children@.len() - i,
                {
                    proof {
                        lemma_children_ok_index(children@, table, i as int);
                        assert(decreases_to!(*self => children@[i as int]));
                    }
                    let child = children[i].to_unixfs_struct(id_map);
                    proof {
                        let next = node_views(resolved@.push(child));
                        let want = resolved_views.take(i + 1);
                        assert forall|j: int| 0 <= j < i + 1 implies next[j] == want[j] by {
                            assert(next[j] == resolved@.push(child)[j]@);
                            if j < i {
                                assert(node_views(resolved@)[j] == resolved@[j]@);
                                assert(node_views(resolved@)[j] == resolved_views.take(i as int)[j]);
                            }
                        }
                        assert(next =~= want);
                    }
                    resolved.push(child);
                    i = i + 1;
                }
                proof {
                    assert(resolved_views.take(i as int) =~= resolved_views);
                    assert(node_views(resolved@) == resolved_views);
                }
                gen_dir(Some(name.clone()), &resolved)
            },
        }
    }
}

} // verus!
