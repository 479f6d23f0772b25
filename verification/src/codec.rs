//! Binary codec for seals, finality justifications and finality messages.
//!
//! A seal and a justification are each one sr25519 signature, carried as its
//! 64 raw bytes. A finality message is a 32-byte block hash followed by the
//! 64 signature bytes. Decoding consumes a fixed-length prefix and ignores
//! what follows it; it fails exactly when the input is shorter than that
//! prefix.

use vstd::prelude::*;

use crate::is_signature_bytes;

verus! {

/// A block-authority signature over a header's pre-seal hash.
#[derive(Clone, Debug)]
pub struct SingletonSeal {
    sig: Vec<u8>,
}

/// A finality-authority signature over a block's post-seal hash.
#[derive(Clone, Debug)]
pub struct SingletonFinalityJustification {
    sig: Vec<u8>,
}

impl View for SingletonSeal {
    type V = Seq<u8>;

    closed spec fn view(&self) -> Seq<u8> {
        self.sig@
    }
}

impl View for SingletonFinalityJustification {
    type V = Seq<u8>;

    closed spec fn view(&self) -> Seq<u8> {
        self.sig@
    }
}

/// What decoding a signature from a byte string yields: the first 64 bytes,
/// or nothing when fewer are present. Trailing bytes are ignored, as the
/// fixed-width decoding of the wire format leaves the rest of its input
/// unread.
pub open spec fn spec_decode_signature(bytes: Seq<u8>) -> Option<Seq<u8>> {
    if bytes.len() >= 64 {
        Some(bytes.subrange(0, 64))
    } else {
        None
    }
}

/// Copies `bytes[start .. start + n]` into a fresh vector.
pub(crate) fn copy_range(bytes: &Vec<u8>, start: usize, n: usize) -> (r: Vec<u8>)
    requires
        start + n <= bytes@.len(),
    ensures
        r@ == bytes@.subrange(start as int, start + n),
{
    let blen: usize = bytes.len();
    let mut out: Vec<u8> = Vec::new();
    let mut i: usize = 0;
    while i < n
        invariant
            i <= n,
            start + n <= blen,
            blen == bytes@.len(),
            out@ == bytes@.subrange(start as int, start + i),
        decreases n - i,
    {
        out.push(bytes[start + i]);
        i = i + 1;
        proof {
            assert(out@ =~= bytes@.subrange(start as int, start + i));
        }
    }
    out
}

impl SingletonSeal {
    /// Wraps 64 signature bytes as a seal; rejects any other length.
    pub fn from_bytes(sig: Vec<u8>) -> (r: Option<SingletonSeal>)
        ensures
            r is Some <==> is_signature_bytes(sig@),
            r matches Some(s) ==> s@ == sig@,
    {
        if sig.len() == 64 {
            Some(SingletonSeal { sig })
        } else {
            None
        }
    }

    /// The fixed-length wire form: the 64 signature bytes themselves.
    pub fn encode(&self) -> (r: Vec<u8>)
        requires
            is_signature_bytes(self@),
        ensures
            r@ == self@,
    {
        let mut out: Vec<u8> = Vec::new();
        let mut i: usize = 0;
        while i < self.sig.len()
            invariant
                i <= self.sig@.len(),
                out@ == self.sig@.subrange(0, i as int),
            decreases self.sig@.len() - i,
        {
            out.push(self.sig[i]);
            i = i + 1;
            proof {
                assert(out@ =~= self.sig@.subrange(0, i as int));
            }
        }
        proof {
            assert(self.sig@.subrange(0, self.sig@.len() as int) =~= self.sig@);
        }
        out
    }

    /// Reads a seal back from a byte string; fails exactly on inputs shorter
    /// than one encoded signature.
    pub fn decode(bytes: &Vec<u8>) -> (r: Option<SingletonSeal>)
        ensures
            r matches Some(s) ==> spec_decode_signature(bytes@) == Some(s@),
            r is None <==> spec_decode_signature(bytes@) is None,
            r matches Some(s) ==> is_signature_bytes(s@),
    {
        if bytes.len() < 64 {
            None
        } else {
            Some(SingletonSeal { sig: copy_range(bytes, 0, 64) })
        }
    }

    /// The signature bytes carried by this seal.
    pub fn signature(&self) -> (r: &Vec<u8>)
        ensures
            r@ == self@,
    {
        &self.sig
    }
}

impl SingletonFinalityJustification {
    /// Wraps 64 signature bytes as a justification; rejects any other length.
    pub fn from_bytes(sig: Vec<u8>) -> (r: Option<SingletonFinalityJustification>)
        ensures
            r is Some <==> is_signature_bytes(sig@),
            r matches Some(j) ==> j@ == sig@,
    {
        if sig.len() == 64 {
            Some(SingletonFinalityJustification { sig })
        } else {
            None
        }
    }

    /// The fixed-length wire form: the 64 signature bytes themselves.
    pub fn encode(&self) -> (r: Vec<u8>)
        requires
            is_signature_bytes(self@),
        ensures
            r@ == self@,
    {
        copy_range(&self.sig, 0, 64)
    }

    /// Reads a justification back from a byte string; fails exactly on inputs
    /// shorter than one encoded signature.
    pub fn decode(bytes: &Vec<u8>) -> (r: Option<SingletonFinalityJustification>)
        ensures
            r matches Some(j) ==> spec_decode_signature(bytes@) == Some(j@),
            r is None <==> spec_decode_signature(bytes@) is None,
            r matches Some(j) ==> is_signature_bytes(j@),
    {
        if bytes.len() < 64 {
            None
        } else {
            Some(SingletonFinalityJustification { sig: copy_range(bytes, 0, 64) })
        }
    }

    /// The signature bytes carried by this justification.
    pub fn signature(&self) -> (r: &Vec<u8>)
        ensures
            r@ == self@,
    {
        &self.sig
    }
}

/// A signature's encoding decodes back to exactly that signature, for every
/// 64-byte signature pattern.
pub proof fn lemma_signature_codec_roundtrip(sig: Seq<u8>)
    requires
        is_signature_bytes(sig),
    ensures
        spec_decode_signature(sig) == Some(sig),
{
    assert(sig.subrange(0, 64) =~= sig);
}

} // verus!
