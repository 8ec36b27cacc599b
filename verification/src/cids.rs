use vstd::prelude::*;

use multihash::MultihashDigest;

verus! {

/// Multicodec tag for raw leaf content.
pub const RAW_CODEC: u64 = 0x55;

/// Multicodec tag for DAG-PB metadata nodes.
pub const DAG_PB_CODEC: u64 = 0x70;

/// The bytes of the CIDv1 identifier wrapping the Blake2b-256 digest of
/// `content` together with the multicodec tag `codec`.  The digest cannot be
/// stated in a few lines, so the identifier only has a name here; everything
/// the library claims about identifiers goes through this function.
pub uninterp spec fn cid_of(codec: u64, content: Seq<u8>) -> Seq<u8>;

/// Relies on multihash's `Code::Blake2b256::digest`, cid's `Cid::new_v1` and
/// `Cid::to_bytes`: the identifier bytes depend on the codec tag and the
/// content alone.  A v1 identifier serializes as varint(version 1),
/// varint(codec), then the multihash: varint(0xb220), varint(32) and the
/// 32 digest bytes; for a one-byte codec varint that is exactly 38 bytes.
#[verifier::external_body]
pub(crate) fn make_cid(codec: u64, content: &[u8]) -> (r: Vec<u8>)
    ensures
        r@ == cid_of(codec, content@),
        codec < 0x80 ==> r@.len() == 38,
{
    let digest = multihash::Code::Blake2b256.digest(content);
    let identifier = cid::Cid::new_v1(codec, digest);
    identifier.to_bytes()
}

} // verus!
