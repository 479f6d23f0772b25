//! Headers and their digest items, with the byte encoding that feeds the
//! header hash.
//!
//! A header carries a list of digest items; the protocol's seal is the last
//! of them, tagged with the fixed 4-byte engine identifier. The canonical
//! hash of a header is the Blake2b-256 digest of its byte encoding, so the
//! pre-seal hash (signed by the block authority) is the hash of the header
//! with the seal item removed, and the post-seal hash (attested by the
//! finality authority) is the hash with the seal in place.

use vstd::prelude::*;

use crate::codec::SingletonSeal;
use crate::crypto::blake2_256;
use crate::crypto::blake2_256_of;
use crate::is_signature_bytes;

verus! {

/// A 4-byte tag identifying the consensus protocol a digest item belongs to.
#[derive(Clone, Copy, Debug, PartialEq, Eq, Structural)]
pub struct EngineId {
    pub b0: u8,
    pub b1: u8,
    pub b2: u8,
    pub b3: u8,
}

/// The tag of this protocol: the four bytes of "SGTN".
pub open spec fn spec_singleton_engine_id() -> EngineId {
    EngineId { b0: 83, b1: 71, b2: 84, b3: 78 }
}

/// The tag of this protocol: the four bytes of "SGTN".
pub fn singleton_engine_id() -> (r: EngineId)
    ensures
        r == spec_singleton_engine_id(),
{
    EngineId { b0: 83, b1: 71, b2: 84, b3: 78 }
}

/// One entry of a header's digest: either a seal (a tagged signature) or an
/// item of some other kind, opaque to this protocol.
#[derive(Clone, Debug)]
pub enum DigestItem {
    Seal { engine: EngineId, payload: Vec<u8> },
    Other { payload: Vec<u8> },
}

/// The mathematical form of a digest item.
#[verifier::ext_equal]
pub enum DigestItemView {
    Seal { engine: EngineId, payload: Seq<u8> },
    Other { payload: Seq<u8> },
}

impl View for DigestItem {
    type V = DigestItemView;

    open spec fn view(&self) -> DigestItemView {
        match self {
            DigestItem::Seal { engine, payload } => DigestItemView::Seal {
                engine: *engine,
                payload: payload@,
            },
            DigestItem::Other { payload } => DigestItemView::Other { payload: payload@ },
        }
    }
}

/// A block header, modelled by the values the protocol reads: the parent
/// hash, the block number, the remaining encoded fields as one opaque byte
/// string, and the digest list.
#[derive(Clone, Debug)]
pub struct Header {
    pub parent_hash: Vec<u8>,
    pub number: u64,
    pub content: Vec<u8>,
    pub digest: Vec<DigestItem>,
}

/// The mathematical form of a header.
#[verifier::ext_equal]
pub struct HeaderView {
    pub parent_hash: Seq<u8>,
    pub number: u64,
    pub content: Seq<u8>,
    pub digest: Seq<DigestItemView>,
}

impl View for Header {
    type V = HeaderView;

    open spec fn view(&self) -> HeaderView {
        HeaderView {
            parent_hash: self.parent_hash@,
            number: self.number,
            content: self.content@,
            digest: self.digest@.map_values(|d: DigestItem| d@),
        }
    }
}

/// A digest item whose payload fits the 4-byte length prefix of the
/// encoding.
pub open spec fn digest_item_wf(d: DigestItemView) -> bool {
    match d {
        DigestItemView::Seal { engine, payload } => payload.len() < 0x1_0000_0000,
        DigestItemView::Other { payload } => payload.len() < 0x1_0000_0000,
    }
}

/// A header whose variable-length parts fit their 4-byte length prefixes.
pub open spec fn header_wf(h: HeaderView) -> bool {
    &&& h.parent_hash.len() < 0x1_0000_0000
    &&& h.content.len() < 0x1_0000_0000
    &&& h.digest.len() < 0x1_0000_0000
    &&& forall|i: int| 0 <= i < h.digest.len() ==> digest_item_wf(#[trigger] h.digest[i])
}

/// The header with one more digest item at the end.
pub open spec fn spec_push_digest(h: HeaderView, d: DigestItemView) -> HeaderView {
    HeaderView { digest: h.digest.push(d), ..h }
}

/// The header with its last digest item removed.
pub open spec fn spec_pop_digest(h: HeaderView) -> HeaderView {
    HeaderView { digest: h.digest.drop_last(), ..h }
}

/// A non-negative number below 2^32 as four little-endian bytes.
pub open spec fn spec_u32_le(n: int) -> Seq<u8> {
    seq![
        (n % 256) as u8,
        ((n / 256) % 256) as u8,
        ((n / 65536) % 256) as u8,
        ((n / 16777216) % 256) as u8,
    ]
}

/// A non-negative number below 2^64 as eight little-endian bytes.
pub open spec fn spec_u64_le(n: int) -> Seq<u8> {
    spec_u32_le(n % 0x1_0000_0000) + spec_u32_le(n / 0x1_0000_0000)
}

/// The byte encoding of one digest item: a kind byte, for a seal the engine
/// tag, then the length-prefixed payload.
pub open spec fn spec_digest_item_bytes(d: DigestItemView) -> Seq<u8> {
    match d {
        DigestItemView::Seal { engine, payload } => seq![1u8, engine.b0, engine.b1, engine.b2, engine.b3]
            + spec_u32_le(payload.len() as int) + payload,
        DigestItemView::Other { payload } => seq![0u8] + spec_u32_le(payload.len() as int)
            + payload,
    }
}

/// The byte encoding of a digest list: the items' encodings in order.
pub open spec fn spec_digest_bytes(items: Seq<DigestItemView>) -> Seq<u8>
    decreases items.len(),
{
    if items.len() == 0 {
        Seq::empty()
    } else {
        spec_digest_bytes(items.drop_last()) + spec_digest_item_bytes(items.last())
    }
}

/// The byte encoding of a header: each variable-length part behind a 4-byte
/// length prefix, the block number as eight bytes, the digest list last.
pub open spec fn spec_header_bytes(h: HeaderView) -> Seq<u8> {
    spec_u32_le(h.parent_hash.len() as int) + h.parent_hash + spec_u64_le(h.number as int)
        + spec_u32_le(h.content.len() as int) + h.content + spec_u32_le(h.digest.len() as int)
        + spec_digest_bytes(h.digest)
}

/// The canonical hash of a header: the Blake2b-256 digest of its encoding.
pub open spec fn spec_header_hash(h: HeaderView) -> Seq<u8> {
    blake2_256_of(spec_header_bytes(h))
}

/// Appends the four little-endian bytes of `n`.
fn push_u32_le(out: &mut Vec<u8>, n: u32)
    ensures
        final(out)@ == old(out)@ + spec_u32_le(n as int),
{
    out.push((n % 256) as u8);
    out.push(((n / 256) % 256) as u8);
    out.push(((n / 65536) % 256) as u8);
    out.push(((n / 16777216) % 256) as u8);
    proof {
        assert(out@ =~= old(out)@ + spec_u32_le(n as int));
    }
}

/// Appends the eight little-endian bytes of `n`.
fn push_u64_le(out: &mut Vec<u8>, n: u64)
    ensures
        final(out)@ == old(out)@ + spec_u64_le(n as int),
{
    let low: u32 = (n % 0x1_0000_0000) as u32;
    let high: u32 = (n / 0x1_0000_0000) as u32;
    push_u32_le(out, low);
    push_u32_le(out, high);
    proof {
        assert(out@ =~= old(out)@ + spec_u64_le(n as int));
    }
}

/// Appends a copy of `src`.
pub(crate) fn push_bytes(out: &mut Vec<u8>, src: &Vec<u8>)
    ensures
        final(out)@ == old(out)@ + src@,
{
    let n: usize = src.len();
    let mut i: usize = 0;
    while i < n
        invariant
            i <= n,
            n == src@.len(),
            out@ == old(out)@ + src@.subrange(0, i as int),
        decreases n - i,
    {
        out.push(src[i]);
        i = i + 1;
        proof {
            assert(out@ =~= old(out)@ + src@.subrange(0, i as int));
        }
    }
    proof {
        assert(src@.subrange(0, src@.len() as int) =~= src@);
    }
}

/// Appends the encoding of one digest item.
fn push_digest_item(out: &mut Vec<u8>, d: &DigestItem)
    requires
        digest_item_wf(d@),
    ensures
        final(out)@ == old(out)@ + spec_digest_item_bytes(d@),
{
    match d {
        DigestItem::Seal { engine, payload } => {
            out.push(1u8);
            out.push(engine.b0);
            out.push(engine.b1);
            out.push(engine.b2);
            out.push(engine.b3);
            push_u32_le(out, payload.len() as u32);
            push_bytes(out, payload);
            proof {
                assert(out@ =~= old(out)@ + spec_digest_item_bytes(d@));
            }
        },
        DigestItem::Other { payload } => {
            out.push(0u8);
            push_u32_le(out, payload.len() as u32);
            push_bytes(out, payload);
            proof {
                assert(out@ =~= old(out)@ + spec_digest_item_bytes(d@));
            }
        },
    }
}

/// Appends the encoding of a digest list.
fn push_digests(out: &mut Vec<u8>, items: &Vec<DigestItem>)
    requires
        forall|i: int| 0 <= i < items@.len() ==> digest_item_wf(#[trigger] items@[i]@),
    ensures
        final(out)@ == old(out)@ + spec_digest_bytes(items@.map_values(|d: DigestItem| d@)),
{
    let ghost dv: Seq<DigestItemView> = items@.map_values(|d: DigestItem| d@);
    let n: usize = items.len();
    let mut i: usize = 0;
    proof {
        assert(dv.subrange(0, 0) =~= Seq::<DigestItemView>::empty());
        assert forall|j: int| 0 <= j < dv.len() implies digest_item_wf(#[trigger] dv[j]) by {
            assert(dv[j] == items@[j]@);
        }
    }
    while i < n
        invariant
            i <= n,
            n == items@.len(),
            dv == items@.map_values(|d: DigestItem| d@),
            forall|j: int| 0 <= j < dv.len() ==> digest_item_wf(#[trigger] dv[j]),
            out@ == old(out)@ + spec_digest_bytes(dv.subrange(0, i as int)),
        decreases n - i,
    {
        proof {
            assert(dv[i as int] == items@[i as int]@);
        }
        push_digest_item(out, &items[i]);
        i = i + 1;
        proof {
            let prefix = dv.subrange(0, i as int);
            assert(prefix.drop_last() =~= dv.subrange(0, i - 1));
            assert(prefix.last() == dv[i - 1]);
            assert(out@ =~= old(out)@ + spec_digest_bytes(prefix));
        }
    }
    proof {
        assert(dv.subrange(0, dv.len() as int) =~= dv);
    }
}

/// The byte encoding of a header, as `spec_header_bytes` states it.
pub fn encode_header(h: &Header) -> (r: Vec<u8>)
    requires
        header_wf(h@),
    ensures
        r@ == spec_header_bytes(h@),
{
    let mut out: Vec<u8> = Vec::new();
    push_u32_le(&mut out, h.parent_hash.len() as u32);
    push_bytes(&mut out, &h.parent_hash);
    push_u64_le(&mut out, h.number);
    push_u32_le(&mut out, h.content.len() as u32);
    push_bytes(&mut out, &h.content);
    push_u32_le(&mut out, h.digest.len() as u32);
    proof {
        assert forall|i: int| 0 <= i < h.digest@.len() implies digest_item_wf(
            #[trigger] h.digest@[i]@,
        ) by {
            assert(h@.digest[i] == h.digest@[i]@);
        }
    }
    push_digests(&mut out, &h.digest);
    proof {
        assert(out@ =~= spec_header_bytes(h@));
    }
    out
}

/// The canonical hash of a header.
pub fn header_hash(h: &Header) -> (r: Vec<u8>)
    requires
        header_wf(h@),
    ensures
        r@ == spec_header_hash(h@),
        r@.len() == 32,
{
    let encoded = encode_header(h);
    blake2_256(&encoded)
}

impl DigestItem {
    /// The digest form of a seal: the protocol's engine tag over the seal's
    /// encoded signature.
    pub fn from_seal(seal: &SingletonSeal) -> (r: DigestItem)
        requires
            is_signature_bytes(seal@),
        ensures
            r@ == (DigestItemView::Seal {
                engine: spec_singleton_engine_id(),
                payload: seal@,
            }),
    {
        DigestItem::Seal { engine: singleton_engine_id(), payload: seal.encode() }
    }
}

} // verus!
