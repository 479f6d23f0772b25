//! The sealing step of block authoring.
//!
//! Authoring runs on a fixed interval outside this crate: the caller asks
//! the chain-selection collaborator for the best header and the proposer
//! collaborator for a candidate block, then hands the candidate's header
//! here. Sealing signs the header's pre-seal hash, appends the seal as a
//! tagged digest item, recomputes the post-seal hash, and pops the seal
//! back off, so that the header handed to storage is unsealed while the
//! seal and the post-seal hash both travel on the import request.

use vstd::prelude::*;

use crate::codec::SingletonSeal;
use crate::crypto::SingletonBlockAuthorityPair;
use crate::crypto::sr25519_public_of;
use crate::crypto::sr25519_verifies;
use crate::digest::DigestItem;
use crate::digest::DigestItemView;
use crate::digest::Header;
use crate::digest::digest_item_wf;
use crate::digest::header_hash;
use crate::digest::header_wf;
use crate::digest::spec_header_hash;
use crate::digest::spec_push_digest;
use crate::digest::spec_singleton_engine_id;
use crate::import::BlockImportParams;
use crate::import::BlockOrigin;
use crate::import::ForkChoiceStrategy;

verus! {

/// Signs the header's hash with the block-authority key and returns the
/// post-seal hash together with the seal as a digest item; the header
/// itself comes back unchanged (the seal is appended for hashing, then
/// popped off again).
pub fn seal_block(pair: &SingletonBlockAuthorityPair, header: &mut Header) -> (r: (
    Vec<u8>,
    DigestItem,
))
    requires
        pair@.len() == 32,
        header_wf(old(header)@),
        old(header)@.digest.len() + 1 < 0x1_0000_0000,
    ensures
        final(header)@ == old(header)@,
        r.1@ matches DigestItemView::Seal { engine, payload } && engine
            == spec_singleton_engine_id() && payload.len() == 64 && sr25519_verifies(
            sr25519_public_of(pair@),
            spec_header_hash(old(header)@),
            payload,
        ),
        r.0@ == spec_header_hash(spec_push_digest(old(header)@, r.1@)),
        r.0@.len() == 32,
{
    let ghost h0 = header@;
    let pre_hash = header_hash(header);
    let sig = pair.sign(&pre_hash);
    let seal = match SingletonSeal::from_bytes(sig) {
        Some(s) => s,
        None => {
            proof {
                assert(false);
            }
            vstd::pervasive::unreached()
        },
    };
    let item = DigestItem::from_seal(&seal);
    let ghost item_view = item@;
    header.digest.push(item);
    proof {
        assert(header@.digest =~= h0.digest.push(item_view));
        assert(header@ =~= spec_push_digest(h0, item_view));
        assert forall|i: int| 0 <= i < header@.digest.len() implies digest_item_wf(
            #[trigger] header@.digest[i],
        ) by {
            if i < h0.digest.len() {
                assert(header@.digest[i] == h0.digest[i]);
            }
        }
    }
    let post_hash = header_hash(header);
    let popped = match header.digest.pop() {
        Some(d) => d,
        None => {
            proof {
                assert(false);
            }
            vstd::pervasive::unreached()
        },
    };
    proof {
        assert(header@.digest =~= h0.digest);
        assert(header@ =~= h0);
        assert(popped@ == item_view);
    }
    (post_hash, popped)
}

/// Builds the import request for a freshly authored block: origin "own",
/// the unsealed header, the seal as a post-digest, the proposal's body and
/// storage changes, the post-seal hash, and the longest-chain fork-choice
/// rule. No justification travels with an authored block.
pub fn build_authored_import(
    pair: &SingletonBlockAuthorityPair,
    header: Header,
    body: Vec<Vec<u8>>,
    storage_changes: Vec<u8>,
) -> (r: BlockImportParams)
    requires
        pair@.len() == 32,
        header_wf(header@),
        header@.digest.len() + 1 < 0x1_0000_0000,
    ensures
        r@.origin == BlockOrigin::Own,
        r@.header == header@,
        r@.justification is None,
        r@.body == Some(body@.map_values(|x: Vec<u8>| x@)),
        r@.post_digests.len() == 1,
        r@.post_digests[0] matches DigestItemView::Seal { engine, payload } && engine
            == spec_singleton_engine_id() && payload.len() == 64 && sr25519_verifies(
            sr25519_public_of(pair@),
            spec_header_hash(header@),
            payload,
        ),
        r@.post_hash == Some(spec_header_hash(spec_push_digest(header@, r@.post_digests[0]))),
        !r@.finalized,
        r@.fork_choice == Some(ForkChoiceStrategy::LongestChain),
        r@.storage_changes == Some(storage_changes@),
{
    let mut header = header;
    let (post_hash, seal_item) = seal_block(pair, &mut header);
    let ghost seal_view = seal_item@;
    let mut params = BlockImportParams::new(BlockOrigin::Own, header);
    params.post_digests.push(seal_item);
    params.body = Some(body);
    params.storage_changes = Some(storage_changes);
    params.post_hash = Some(post_hash);
    params.fork_choice = Some(ForkChoiceStrategy::LongestChain);
    proof {
        assert(params@.post_digests =~= seq![seal_view]);
    }
    params
}

/// An authored block is accepted by the verifier it was sealed for: pushing
/// the request's post-digest seal back onto the unsealed header yields a
/// header the check accepts, recovering exactly the signature that sealed
/// it.
pub proof fn lemma_authored_block_verifies(pk: Seq<u8>, unsealed: crate::digest::HeaderView, item: DigestItemView)
    requires
        item matches DigestItemView::Seal { engine, payload } && engine
            == spec_singleton_engine_id() && payload.len() == 64 && sr25519_verifies(
            pk,
            spec_header_hash(unsealed),
            payload,
        ),
    ensures
        item matches DigestItemView::Seal { payload, .. } ==> crate::verify::spec_check_header(
            pk,
            spec_push_digest(unsealed, item),
        ) == Ok::<Seq<u8>, crate::verify::VerifierError>(payload),
{
    match item {
        DigestItemView::Seal { engine, payload } => {
            crate::verify::lemma_valid_seal_accepted(pk, unsealed, payload);
        },
        DigestItemView::Other { .. } => {},
    }
}

} // verus!
