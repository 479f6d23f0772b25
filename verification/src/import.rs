//! Block-import requests, and the decorated import decision that turns a
//! valid finality justification into a "finalized" marker.
//!
//! The inner "commit this block to storage" operation belongs to the ledger
//! collaborator outside this crate. What is decided here is everything the
//! decorator adds: whether the request's justification byte string decodes,
//! whether the decoded signature verifies against the request's post-seal
//! hash under the finality authority's key, and how the request is mutated
//! before it is handed on. An undecodable justification is treated as no
//! justification, and an invalid one never blocks the import itself.

use vstd::prelude::*;

use crate::codec::SingletonFinalityJustification;
use crate::codec::spec_decode_signature;
use crate::crypto::SingletonFinalityAuthority;
use crate::crypto::sr25519_verifies;
use crate::crypto::sr25519_verify;
use crate::digest::DigestItem;
use crate::digest::DigestItemView;
use crate::digest::Header;
use crate::digest::HeaderView;

verus! {

/// Where a block came from.
#[derive(Clone, Copy, Debug, PartialEq, Eq, Structural)]
pub enum BlockOrigin {
    Own,
    NetworkInitialSync,
    NetworkBroadcast,
    File,
}

/// The rule for choosing among competing chain extensions. This protocol
/// always prefers the longest chain.
#[derive(Clone, Copy, Debug, PartialEq, Eq, Structural)]
pub enum ForkChoiceStrategy {
    LongestChain,
}

/// A request to commit one block, handed to the ledger collaborator.
#[derive(Debug)]
pub struct BlockImportParams {
    pub origin: BlockOrigin,
    pub header: Header,
    pub justification: Option<Vec<u8>>,
    pub body: Option<Vec<Vec<u8>>>,
    pub post_digests: Vec<DigestItem>,
    pub post_hash: Option<Vec<u8>>,
    pub finalized: bool,
    pub fork_choice: Option<ForkChoiceStrategy>,
    pub storage_changes: Option<Vec<u8>>,
}

/// The mathematical form of an import request.
#[verifier::ext_equal]
pub struct BlockImportParamsView {
    pub origin: BlockOrigin,
    pub header: HeaderView,
    pub justification: Option<Seq<u8>>,
    pub body: Option<Seq<Seq<u8>>>,
    pub post_digests: Seq<DigestItemView>,
    pub post_hash: Option<Seq<u8>>,
    pub finalized: bool,
    pub fork_choice: Option<ForkChoiceStrategy>,
    pub storage_changes: Option<Seq<u8>>,
}

/// The mathematical form of an optional byte string.
pub open spec fn opt_bytes_view(o: Option<Vec<u8>>) -> Option<Seq<u8>> {
    match o {
        Some(v) => Some(v@),
        None => None,
    }
}

/// The mathematical form of an optional block body.
pub open spec fn opt_body_view(o: Option<Vec<Vec<u8>>>) -> Option<Seq<Seq<u8>>> {
    match o {
        Some(b) => Some(b@.map_values(|x: Vec<u8>| x@)),
        None => None,
    }
}

impl View for BlockImportParams {
    type V = BlockImportParamsView;

    open spec fn view(&self) -> BlockImportParamsView {
        BlockImportParamsView {
            origin: self.origin,
            header: self.header@,
            justification: opt_bytes_view(self.justification),
            body: opt_body_view(self.body),
            post_digests: self.post_digests@.map_values(|d: DigestItem| d@),
            post_hash: opt_bytes_view(self.post_hash),
            finalized: self.finalized,
            fork_choice: self.fork_choice,
            storage_changes: opt_bytes_view(self.storage_changes),
        }
    }
}

impl BlockImportParams {
    /// A fresh request for a header from the given origin; every other
    /// field starts empty, unfinalized, with no fork-choice rule chosen.
    pub fn new(origin: BlockOrigin, header: Header) -> (r: BlockImportParams)
        ensures
            r@.origin == origin,
            r@.header == header@,
            r@.justification is None,
            r@.body is None,
            r@.post_digests == Seq::<DigestItemView>::empty(),
            r@.post_hash is None,
            !r@.finalized,
            r@.fork_choice is None,
            r@.storage_changes is None,
    {
        let r = BlockImportParams {
            origin,
            header,
            justification: None,
            body: None,
            post_digests: Vec::new(),
            post_hash: None,
            finalized: false,
            fork_choice: None,
            storage_changes: None,
        };
        proof {
            assert(r@.post_digests =~= Seq::<DigestItemView>::empty());
        }
        r
    }
}

/// What the decorated import found in a request's justification field.
#[derive(Clone, Copy, Debug, PartialEq, Eq, Structural)]
pub enum JustificationOutcome {
    /// A decodable signature that verifies: the request was marked
    /// finalized and its justification replaced by the canonical encoding.
    Applied,
    /// A decodable signature that does not verify: the request goes on
    /// unfinalized, for the caller to log the offending hash.
    Rejected,
    /// No justification, or one whose bytes do not decode.
    Absent,
}

/// How the decorated import mutates a request: the resulting request and
/// what was found in its justification field.
pub open spec fn spec_apply_justification(fk: Seq<u8>, b: BlockImportParamsView) -> (
    BlockImportParamsView,
    JustificationOutcome,
) {
    match b.justification {
        None => (
            BlockImportParamsView { justification: None, ..b },
            JustificationOutcome::Absent,
        ),
        Some(j) => match spec_decode_signature(j) {
            None => (
                BlockImportParamsView { justification: None, ..b },
                JustificationOutcome::Absent,
            ),
            Some(sig) => match b.post_hash {
                Some(h) => if sr25519_verifies(fk, h, sig) {
                    (
                        BlockImportParamsView {
                            justification: Some(sig),
                            finalized: true,
                            ..b
                        },
                        JustificationOutcome::Applied,
                    )
                } else {
                    (
                        BlockImportParamsView { justification: None, ..b },
                        JustificationOutcome::Rejected,
                    )
                },
                None => arbitrary(),
            },
        },
    }
}

/// The decorated block import: inspects a request's justification and marks
/// the request finalized when the justification is a valid
/// finality-authority signature over the request's post-seal hash. The
/// delegation to the inner commit operation stays with the caller.
pub struct SingletonBlockImport {
    pub finality_authority: SingletonFinalityAuthority,
}

impl SingletonBlockImport {
    /// A decorator checking against the given finality authority.
    pub fn new(finality_authority: SingletonFinalityAuthority) -> (r: SingletonBlockImport)
        ensures
            r.finality_authority@ == finality_authority@,
    {
        SingletonBlockImport { finality_authority }
    }

    /// Mutates one import request as `spec_apply_justification` states, and
    /// reports what was found. A request whose justification decodes must
    /// carry a post-seal hash; the verifier and the authoring path both
    /// guarantee that.
    pub fn import_block(&self, block: &mut BlockImportParams) -> (outcome: JustificationOutcome)
        requires
            (old(block)@.justification matches Some(j) && spec_decode_signature(j) is Some)
                ==> old(block)@.post_hash is Some,
        ensures
            (final(block)@, outcome) == spec_apply_justification(
                self.finality_authority@,
                old(block)@,
            ),
    {
        let decoded: Option<SingletonFinalityJustification> = match &block.justification {
            None => None,
            Some(j) => SingletonFinalityJustification::decode(j),
        };
        block.justification = None;
        match decoded {
            None => JustificationOutcome::Absent,
            Some(justification) => {
                let hash: &Vec<u8> = match &block.post_hash {
                    Some(h) => h,
                    None => {
                        proof {
                            assert(false);
                        }
                        vstd::pervasive::unreached()
                    },
                };
                if sr25519_verify(
                    self.finality_authority.as_bytes(),
                    hash,
                    justification.signature(),
                ) {
                    block.justification = Some(justification.encode());
                    block.finalized = true;
                    JustificationOutcome::Applied
                } else {
                    JustificationOutcome::Rejected
                }
            },
        }
    }
}

/// For a request carrying a justification signed over its post-seal hash by
/// the finality key, the decorated import marks the request finalized and
/// replaces the justification with its canonical encoding; every other
/// field is left as it was.
pub proof fn lemma_valid_justification_finalizes(
    fk: Seq<u8>,
    b: BlockImportParamsView,
    sig: Seq<u8>,
)
    requires
        b.justification == Some(sig),
        sig.len() == 64,
        b.post_hash matches Some(h) && sr25519_verifies(fk, h, sig),
    ensures
        spec_apply_justification(fk, b).1 == JustificationOutcome::Applied,
        spec_apply_justification(fk, b).0.finalized,
        spec_apply_justification(fk, b).0.justification == Some(sig),
        spec_apply_justification(fk, b).0.header == b.header,
        spec_apply_justification(fk, b).0.post_hash == b.post_hash,
{
    assert(sig.subrange(0, 64) =~= sig);
}

/// For a request whose justification does not verify against its post-seal
/// hash, the import still goes through, but unfinalized and with the bad
/// justification discarded: a bad justification never blocks chain
/// progress, and never finalizes a block.
pub proof fn lemma_invalid_justification_not_finalized(
    fk: Seq<u8>,
    b: BlockImportParamsView,
    sig: Seq<u8>,
)
    requires
        b.justification == Some(sig),
        sig.len() == 64,
        b.post_hash matches Some(h) && !sr25519_verifies(fk, h, sig),
    ensures
        spec_apply_justification(fk, b).1 == JustificationOutcome::Rejected,
        spec_apply_justification(fk, b).0.finalized == b.finalized,
        spec_apply_justification(fk, b).0.justification is None,
{
    assert(sig.subrange(0, 64) =~= sig);
}

} // verus!
