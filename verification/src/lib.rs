//! A minimal single-authority consensus protocol for a block-based ledger.
//!
//! One designated key (the block authority) seals every block; a second,
//! independently held key (the finality authority) attests that a block is
//! irreversible. The attestation is flooded to all peers on a single gossip
//! topic. This crate holds the protocol logic itself: the seal and
//! justification codec, the header verifier, the decorated block-import
//! decision, the block-authoring seal round-trip, and the finality gossip
//! producer and consumer. The surrounding collaborators (ledger storage,
//! block proposer, gossip transport) are reached through plain values at the
//! crate boundary.

pub mod author;
pub mod codec;
pub mod crypto;
pub mod digest;
pub mod gadget;
pub mod import;
pub mod ledger;
pub mod verify;

use vstd::prelude::*;

verus! {

/// The configuration surface of the protocol: the two public keys every
/// node holds, fixed at process start.
#[derive(Clone, Debug)]
pub struct SingletonConfig {
    pub block_authority: crypto::SingletonBlockAuthority,
    pub finality_authority: crypto::SingletonFinalityAuthority,
}

/// A fixed-length sr25519 signature, as raw bytes.
pub open spec fn is_signature_bytes(s: Seq<u8>) -> bool {
    s.len() == 64
}

} // verus!
