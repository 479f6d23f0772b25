//! The header verifier: checks that an incoming block header carries a seal
//! produced by the block authority, strips the seal from the header before
//! hashing, and builds the import request for an accepted block.

use vstd::prelude::*;

use crate::codec::SingletonSeal;
use crate::codec::spec_decode_signature;
use crate::crypto::SingletonBlockAuthority;
use crate::crypto::sr25519_verifies;
use crate::crypto::sr25519_verify;
use crate::digest::DigestItem;
use crate::digest::DigestItemView;
use crate::digest::Header;
use crate::digest::HeaderView;
use crate::digest::header_hash;
use crate::digest::header_wf;
use crate::digest::singleton_engine_id;
use crate::digest::spec_header_hash;
use crate::digest::spec_pop_digest;
use crate::digest::spec_push_digest;
use crate::digest::spec_singleton_engine_id;
use crate::import::BlockImportParams;
use crate::import::BlockOrigin;
use crate::import::ForkChoiceStrategy;
use crate::import::opt_body_view;
use crate::import::opt_bytes_view;

verus! {

/// Why a header was rejected. The four outcomes are distinct, so a caller
/// can tell an unsealed header from a seal for another engine, from a seal
/// whose bytes do not decode, from a seal whose signature does not verify.
#[derive(Clone, Copy, Debug, PartialEq, Eq, Structural)]
pub enum VerifierError {
    UnsealedHeader,
    WrongEngineSeal,
    InvalidSealEncoding,
    InvalidSealSignature,
}

impl VerifierError {
    /// A short description of the rejection.
    pub fn message(&self) -> (r: &'static str)
        ensures
            *self is UnsealedHeader ==> r@ == "Unsealed header"@,
            *self is WrongEngineSeal ==> r@ == "Header seal for wrong engine"@,
            *self is InvalidSealEncoding ==> r@ == "Header with invalid seal"@,
            *self is InvalidSealSignature ==> r@ == "Invalid seal signature."@,
    {
        match self {
            VerifierError::UnsealedHeader => "Unsealed header",
            VerifierError::WrongEngineSeal => "Header seal for wrong engine",
            VerifierError::InvalidSealEncoding => "Header with invalid seal",
            VerifierError::InvalidSealSignature => "Invalid seal signature.",
        }
    }
}

/// What checking a header against the block authority's key `pk` yields:
/// the recovered signature bytes, or the reason for rejection. The last
/// digest item must be a seal tagged for this engine whose payload decodes
/// to a signature over the hash of the header with that item removed.
pub open spec fn spec_check_header(pk: Seq<u8>, h: HeaderView) -> Result<Seq<u8>, VerifierError> {
    if h.digest.len() == 0 {
        Err(VerifierError::UnsealedHeader)
    } else {
        match h.digest.last() {
            DigestItemView::Other { .. } => Err(VerifierError::UnsealedHeader),
            DigestItemView::Seal { engine, payload } => {
                if engine != spec_singleton_engine_id() {
                    Err(VerifierError::WrongEngineSeal)
                } else {
                    match spec_decode_signature(payload) {
                        None => Err(VerifierError::InvalidSealEncoding),
                        Some(sig) => if sr25519_verifies(
                            pk,
                            spec_header_hash(spec_pop_digest(h)),
                            sig,
                        ) {
                            Ok(sig)
                        } else {
                            Err(VerifierError::InvalidSealSignature)
                        },
                    }
                }
            },
        }
    }
}

/// The header after one check: the seal has been stripped on acceptance; a
/// rejected header is left untouched, so a different verifier downstream
/// could still process it.
pub open spec fn spec_checked_header(pk: Seq<u8>, h: HeaderView) -> HeaderView {
    if spec_check_header(pk, h) is Ok {
        spec_pop_digest(h)
    } else {
        h
    }
}

/// The verifier, configured with the block authority's public key.
pub struct SingletonVerifier {
    pub authority: SingletonBlockAuthority,
}

impl SingletonVerifier {
    /// A verifier checking seals against the given block authority.
    pub fn new(authority: SingletonBlockAuthority) -> (r: SingletonVerifier)
        ensures
            r.authority@ == authority@,
    {
        SingletonVerifier { authority }
    }

    /// Checks the header's last digest item as `spec_check_header` states.
    /// On acceptance the seal is stripped from the header and returned; a
    /// rejected header comes back unchanged.
    pub fn check_header(&self, header: &mut Header) -> (r: Result<SingletonSeal, VerifierError>)
        requires
            header_wf(old(header)@),
        ensures
            final(header)@ == spec_checked_header(self.authority@, old(header)@),
            r matches Ok(seal) ==> spec_check_header(self.authority@, old(header)@) == Ok::<
                Seq<u8>,
                VerifierError,
            >(seal@),
            r matches Err(e) ==> spec_check_header(self.authority@, old(header)@) == Err::<
                Seq<u8>,
                VerifierError,
            >(e),
    {
        let ghost h0: HeaderView = header@;
        let n: usize = header.digest.len();
        if n == 0 {
            return Err(VerifierError::UnsealedHeader);
        }
        proof {
            assert(h0.digest.last() == header.digest@[n - 1]@);
        }
        let checked: Result<SingletonSeal, VerifierError> = match &header.digest[n - 1] {
            DigestItem::Other { .. } => Err(VerifierError::UnsealedHeader),
            DigestItem::Seal { engine, payload } => {
                if !(*engine == singleton_engine_id()) {
                    Err(VerifierError::WrongEngineSeal)
                } else {
                    match SingletonSeal::decode(payload) {
                        None => Err(VerifierError::InvalidSealEncoding),
                        Some(seal) => Ok(seal),
                    }
                }
            },
        };
        let seal = match checked {
            Err(e) => {
                return Err(e);
            },
            Ok(seal) => seal,
        };
        let item = match header.digest.pop() {
            Some(d) => d,
            None => {
                proof {
                    assert(false);
                }
                vstd::pervasive::unreached()
            },
        };
        proof {
            assert(header@.digest =~= h0.digest.drop_last());
            assert(header@ =~= spec_pop_digest(h0));
            assert forall|i: int| 0 <= i < header@.digest.len() implies crate::digest::digest_item_wf(
                #[trigger] header@.digest[i],
            ) by {
                assert(header@.digest[i] == h0.digest[i]);
            }
        }
        let pre_hash = header_hash(header);
        if sr25519_verify(self.authority.as_bytes(), &pre_hash, seal.signature()) {
            Ok(seal)
        } else {
            header.digest.push(item);
            proof {
                assert(header@.digest =~= h0.digest);
                assert(header@ =~= h0);
            }
            Err(VerifierError::InvalidSealSignature)
        }
    }

    /// Runs one candidate header through the check and, on acceptance,
    /// builds the import request: the un-sealed header, the recovered seal
    /// re-attached as a post-digest, the post-seal hash, the supplied
    /// justification and body, and the longest-chain fork-choice rule.
    pub fn verify(
        &self,
        origin: BlockOrigin,
        header: Header,
        justification: Option<Vec<u8>>,
        body: Option<Vec<Vec<u8>>>,
    ) -> (r: Result<BlockImportParams, VerifierError>)
        requires
            header_wf(header@),
        ensures
            r matches Err(e) ==> spec_check_header(self.authority@, header@) == Err::<
                Seq<u8>,
                VerifierError,
            >(e),
            r matches Ok(p) ==> {
                &&& spec_check_header(self.authority@, header@) matches Ok(sig)
                &&& p@.origin == origin
                &&& p@.header == spec_pop_digest(header@)
                &&& p@.justification == opt_bytes_view(justification)
                &&& p@.body == opt_body_view(body)
                &&& p@.post_digests == seq![
                    DigestItemView::Seal { engine: spec_singleton_engine_id(), payload: sig },
                ]
                &&& p@.post_hash == Some(spec_header_hash(header@))
                &&& !p@.finalized
                &&& p@.fork_choice == Some(ForkChoiceStrategy::LongestChain)
                &&& p@.storage_changes is None
            },
    {
        let hash = header_hash(&header);
        let mut header = header;
        match self.check_header(&mut header) {
            Err(e) => Err(e),
            Ok(seal) => {
                proof {
                    crate::codec::lemma_signature_codec_roundtrip(seal@);
                }
                let mut params = BlockImportParams::new(origin, header);
                params.body = body;
                let item = DigestItem::from_seal(&seal);
                params.post_digests.push(item);
                params.post_hash = Some(hash);
                params.justification = justification;
                params.fork_choice = Some(ForkChoiceStrategy::LongestChain);
                proof {
                    assert(params@.post_digests =~= seq![
                        DigestItemView::Seal {
                            engine: spec_singleton_engine_id(),
                            payload: seal@,
                        },
                    ]);
                }
                Ok(params)
            },
        }
    }
}

/// Every header sealed for this engine with a signature over its pre-seal
/// hash is accepted, and the recovered seal is exactly the signature that
/// was used to sign; it re-decodes to itself through the codec.
pub proof fn lemma_valid_seal_accepted(pk: Seq<u8>, unsealed: HeaderView, sig: Seq<u8>)
    requires
        sig.len() == 64,
        sr25519_verifies(pk, spec_header_hash(unsealed), sig),
    ensures
        spec_check_header(
            pk,
            spec_push_digest(
                unsealed,
                DigestItemView::Seal { engine: spec_singleton_engine_id(), payload: sig },
            ),
        ) == Ok::<Seq<u8>, VerifierError>(sig),
        spec_decode_signature(sig) == Some(sig),
{
    let sealed = spec_push_digest(
        unsealed,
        DigestItemView::Seal { engine: spec_singleton_engine_id(), payload: sig },
    );
    assert(sealed.digest.drop_last() =~= unsealed.digest);
    assert(spec_pop_digest(sealed) =~= unsealed);
    assert(sig.subrange(0, 64) =~= sig);
}

/// The three rejection outcomes are produced exactly as the protocol
/// states, and are pairwise distinct: no seal at all is "unsealed", a seal
/// tagged for another engine is "wrong engine", and a well-tagged,
/// well-formed seal whose signature does not verify is "invalid signature".
pub proof fn lemma_rejections_distinguished(pk: Seq<u8>, h: HeaderView)
    ensures
        h.digest.len() == 0 ==> spec_check_header(pk, h) == Err::<Seq<u8>, VerifierError>(
            VerifierError::UnsealedHeader,
        ),
        h.digest.len() > 0 ==> ((h.digest.last() matches DigestItemView::Seal { engine, .. }
            && engine != spec_singleton_engine_id()) ==> spec_check_header(pk, h) == Err::<
            Seq<u8>,
            VerifierError,
        >(VerifierError::WrongEngineSeal)),
        h.digest.len() > 0 ==> ((h.digest.last() matches DigestItemView::Seal { engine, payload }
            && engine == spec_singleton_engine_id() && payload.len() >= 64 && !sr25519_verifies(
            pk,
            spec_header_hash(spec_pop_digest(h)),
            payload.subrange(0, 64),
        )) ==> spec_check_header(pk, h) == Err::<Seq<u8>, VerifierError>(
            VerifierError::InvalidSealSignature,
        )),
        VerifierError::UnsealedHeader != VerifierError::WrongEngineSeal,
        VerifierError::UnsealedHeader != VerifierError::InvalidSealEncoding,
        VerifierError::UnsealedHeader != VerifierError::InvalidSealSignature,
        VerifierError::WrongEngineSeal != VerifierError::InvalidSealEncoding,
        VerifierError::WrongEngineSeal != VerifierError::InvalidSealSignature,
        VerifierError::InvalidSealEncoding != VerifierError::InvalidSealSignature,
{
}

} // verus!
