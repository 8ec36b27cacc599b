use vstd::prelude::*;

use quick_protobuf::MessageWrite;
use quick_protobuf::Writer;
use std::borrow::Cow;
use unixfs_v1::{PBLink, PBNode, UnixFs, UnixFsType};

verus! {

/// The kind of UnixFS metadata a DAG node carries.
pub enum NodeKind {
    Raw,
    File,
    Directory,
}

/// A child reference as it is embedded in a DAG-PB node: an optional name,
/// the child's identifier bytes, and the child's advertised cumulative size.
pub struct Link {
    pub name: Option<String>,
    pub hash: Vec<u8>,
    pub tsize: u64,
}

/// Mathematical image of a `Link`.
#[verifier::ext_equal]
pub ghost struct LinkView {
    pub name: Option<Seq<char>>,
    pub hash: Seq<u8>,
    pub tsize: u64,
}

impl View for Link {
    type V = LinkView;

    open spec fn view(&self) -> LinkView {
        LinkView {
            name: match self.name {
                Some(s) => Some(s@),
                None => None,
            },
            hash: self.hash@,
            tsize: self.tsize,
        }
    }
}

pub open spec fn links_view(links: Seq<Link>) -> Seq<LinkView> {
    links.map_values(|l: Link| l@)
}

/// The serialized UnixFS `Data` message carrying the given type tag, total
/// file size and block sizes.  The exact wire bytes are a function of these
/// fields alone and are left unstated.
pub uninterp spec fn unixfs_data_encoding(
    kind: NodeKind,
    filesize: Option<u64>,
    blocksizes: Seq<u64>,
) -> Seq<u8>;

/// The serialized DAG-PB node embedding `data` with the given ordered links.
/// The exact wire bytes are a function of these fields alone and are left
/// unstated.
pub uninterp spec fn pb_node_encoding(links: Seq<LinkView>, data: Seq<u8>) -> Seq<u8>;

/// Relies on unixfs_v1's generated writer for the UnixFS `Data` message,
/// driven by quick_protobuf's `Writer`: the produced bytes depend only on the
/// message fields, and writing into an in-memory `Vec` cannot fail.
#[verifier::external_body]
pub(crate) fn encode_unixfs_data(
    kind: NodeKind,
    filesize: Option<u64>,
    blocksizes: &Vec<u64>,
) -> (r: Vec<u8>)
    ensures
        r@ == unixfs_data_encoding(kind, filesize, blocksizes@),
{
    let unixfs_type = match kind {
        NodeKind::Raw => UnixFsType::Raw,
        NodeKind::File => UnixFsType::File,
        NodeKind::Directory => UnixFsType::Directory,
    };
    let message = UnixFs {
        Type: unixfs_type,
        filesize,
        blocksizes: blocksizes.clone(),
        ..UnixFs::default()
    };
    let mut out = vec![];
    message.write_message(&mut Writer::new(&mut out)).unwrap();
    out
}

/// Relies on unixfs_v1's generated writer for the DAG-PB `PBNode` message,
/// driven by quick_protobuf's `Writer`: the produced bytes depend only on the
/// links and the embedded data, and writing into an in-memory `Vec` cannot
/// fail.
#[verifier::external_body]
pub(crate) fn encode_pb_node(links: &Vec<Link>, data: &Vec<u8>) -> (r: Vec<u8>)
    ensures
        r@ == pb_node_encoding(links_view(links@), data@),
{
    let pb_links: Vec<PBLink> = links
        .iter()
        .map(|l| PBLink {
            Hash: Some(Cow::from(l.hash.as_slice())),
            Name: l.name.as_deref().map(Cow::from),
            Tsize: Some(l.tsize),
        })
        .collect();
    let message = PBNode { Links: pb_links, Data: Some(Cow::from(data.as_slice())) };
    let mut out = vec![];
    message.write_message(&mut Writer::new(&mut out)).unwrap();
    out
}

} // verus!
