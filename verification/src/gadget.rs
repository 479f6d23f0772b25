//! The finality gossip gadget's decisions.
//!
//! The gadget multiplexes three activities outside this crate: driving the
//! gossip transport, consuming messages from the fixed topic, and — on a
//! node holding the finality key — producing an attestation for every new
//! best block. The transport and the event loop stay with the caller; what
//! is decided here is everything per message: what a notification turns
//! into (sign, encode, flood, finalize locally), and what an incoming
//! payload leads to (decode, verify, finalize — or drop).

use vstd::prelude::*;

use crate::codec::SingletonFinalityJustification;
use crate::codec::copy_range;
use crate::crypto::SingletonFinalityAuthority;
use crate::crypto::SingletonFinalityAuthorityPair;
use crate::crypto::blake2_256;
use crate::crypto::blake2_256_of;
use crate::crypto::sr25519_public_of;
use crate::crypto::sr25519_verifies;
use crate::crypto::sr25519_verify;
use crate::digest::push_bytes;

verus! {

/// The unit of gossip payload: a block hash and the finality authority's
/// signature over it.
#[derive(Debug)]
pub struct SingletonFinalityMessage {
    pub block_hash: Vec<u8>,
    pub proof: SingletonFinalityJustification,
}

/// The mathematical form of a finality message.
#[verifier::ext_equal]
pub struct FinalityMessageView {
    pub block_hash: Seq<u8>,
    pub proof: Seq<u8>,
}

impl View for SingletonFinalityMessage {
    type V = FinalityMessageView;

    open spec fn view(&self) -> FinalityMessageView {
        FinalityMessageView { block_hash: self.block_hash@, proof: self.proof@ }
    }
}

/// A message whose parts have their fixed wire lengths.
pub open spec fn message_wf(m: FinalityMessageView) -> bool {
    m.block_hash.len() == 32 && m.proof.len() == 64
}

/// The wire form of a finality message: the 32 hash bytes, then the 64
/// signature bytes.
pub open spec fn spec_encode_message(m: FinalityMessageView) -> Seq<u8> {
    m.block_hash + m.proof
}

/// What decoding a finality message yields: the fixed-length parts, or
/// nothing when the input is shorter than one encoded message. Trailing
/// bytes are ignored.
pub open spec fn spec_decode_message(bytes: Seq<u8>) -> Option<FinalityMessageView> {
    if bytes.len() >= 96 {
        Some(
            FinalityMessageView {
                block_hash: bytes.subrange(0, 32),
                proof: bytes.subrange(32, 96),
            },
        )
    } else {
        None
    }
}

impl SingletonFinalityMessage {
    /// The wire form of this message.
    pub fn encode(&self) -> (r: Vec<u8>)
        requires
            message_wf(self@),
        ensures
            r@ == spec_encode_message(self@),
    {
        let mut out: Vec<u8> = Vec::new();
        push_bytes(&mut out, &self.block_hash);
        push_bytes(&mut out, self.proof.signature());
        proof {
            assert(out@ =~= spec_encode_message(self@));
        }
        out
    }

    /// Reads a message back from a payload; fails exactly on inputs shorter
    /// than one encoded message.
    pub fn decode(bytes: &Vec<u8>) -> (r: Option<SingletonFinalityMessage>)
        ensures
            r matches Some(m) ==> spec_decode_message(bytes@) == Some(m@) && message_wf(m@),
            r is None <==> spec_decode_message(bytes@) is None,
    {
        if bytes.len() < 96 {
            None
        } else {
            let block_hash = copy_range(bytes, 0, 32);
            let sig = copy_range(bytes, 32, 64);
            let proof = match SingletonFinalityJustification::from_bytes(sig) {
                Some(p) => p,
                None => {
                    proof {
                        assert(false);
                    }
                    vstd::pervasive::unreached()
                },
            };
            Some(SingletonFinalityMessage { block_hash, proof })
        }
    }
}

/// A message's encoding decodes back to exactly that message, for every
/// well-formed message.
pub proof fn lemma_message_codec_roundtrip(m: FinalityMessageView)
    requires
        message_wf(m),
    ensures
        spec_decode_message(spec_encode_message(m)) == Some(m),
{
    let encoded = spec_encode_message(m);
    assert(encoded.subrange(0, 32) =~= m.block_hash);
    assert(encoded.subrange(32, 96) =~= m.proof);
}

/// The bytes of the topic string "singleton", whose hash names the single
/// fixed gossip topic all finality traffic shares.
pub open spec fn spec_topic_input() -> Seq<u8> {
    seq![115u8, 105u8, 110u8, 103u8, 108u8, 101u8, 116u8, 111u8, 110u8]
}

/// The fixed gossip topic: the Blake2b-256 hash of the topic string.
pub open spec fn spec_gossip_topic() -> Seq<u8> {
    blake2_256_of(spec_topic_input())
}

/// The fixed gossip topic all finality traffic is flooded on.
pub fn gossip_topic() -> (t: Vec<u8>)
    ensures
        t@ == spec_gossip_topic(),
        t@.len() == 32,
{
    let mut input: Vec<u8> = Vec::new();
    input.push(115);
    input.push(105);
    input.push(110);
    input.push(103);
    input.push(108);
    input.push(101);
    input.push(116);
    input.push(111);
    input.push(110);
    proof {
        assert(input@ =~= spec_topic_input());
    }
    blake2_256(&input)
}

/// The bytes of the protocol name under which the gossip transport carries
/// this protocol's traffic.
pub open spec fn spec_protocol_name() -> Seq<u8> {
    seq![
        47u8, 98u8, 97u8, 114u8, 99u8, 97u8, 109u8, 112u8, 47u8, 115u8, 105u8, 110u8, 103u8,
        108u8, 101u8, 116u8, 111u8, 110u8, 47u8, 49u8,
    ]
}

/// The protocol name "/barcamp/singleton/1".
pub fn singleton_protocol_name() -> (r: Vec<u8>)
    ensures
        r@ == spec_protocol_name(),
{
    let mut out: Vec<u8> = Vec::new();
    out.push(47);
    out.push(98);
    out.push(97);
    out.push(114);
    out.push(99);
    out.push(97);
    out.push(109);
    out.push(112);
    out.push(47);
    out.push(115);
    out.push(105);
    out.push(110);
    out.push(103);
    out.push(108);
    out.push(101);
    out.push(116);
    out.push(111);
    out.push(110);
    out.push(47);
    out.push(49);
    proof {
        assert(out@ =~= spec_protocol_name());
    }
    out
}

/// What the gossip transport is told about a message it received.
#[derive(Debug)]
pub enum GossipValidationResult {
    /// Process the message and keep it for late subscribers, filed under
    /// the given topic.
    ProcessAndKeep(Vec<u8>),
}

/// The admission policy of the gossip layer: every message is let through
/// and kept, filed under the single fixed topic. Trivial today, but kept as
/// an explicit, replaceable piece: a quorum protocol would change only
/// this.
pub struct AllowAll {
    pub topic: Vec<u8>,
}

impl AllowAll {
    /// Admits any message from any sender.
    pub fn validate(&self, _sender: &Vec<u8>, _data: &Vec<u8>) -> (r: GossipValidationResult)
        ensures
            r matches GossipValidationResult::ProcessAndKeep(t) && t@ == self.topic@,
    {
        let mut t: Vec<u8> = Vec::new();
        push_bytes(&mut t, &self.topic);
        proof {
            assert(t@ =~= self.topic@);
        }
        GossipValidationResult::ProcessAndKeep(t)
    }
}

/// The spec-level outcome of consuming one gossip payload.
pub enum ConsumerDecision {
    /// The payload decoded and its signature verified: finalize the hash,
    /// persisting the justification.
    Finalize { block_hash: Seq<u8>, justification: Seq<u8> },
    /// The payload does not decode: log and drop.
    BadEncoding,
    /// The signature does not verify: log and drop.
    BadSignature,
}

/// What a consumer does with one gossip payload, given the finality
/// authority's public key.
pub open spec fn spec_consume(fk: Seq<u8>, payload: Seq<u8>) -> ConsumerDecision {
    match spec_decode_message(payload) {
        None => ConsumerDecision::BadEncoding,
        Some(m) => if sr25519_verifies(fk, m.block_hash, m.proof) {
            ConsumerDecision::Finalize { block_hash: m.block_hash, justification: m.proof }
        } else {
            ConsumerDecision::BadSignature
        },
    }
}

/// The executable outcome of consuming one gossip payload.
#[derive(Debug)]
pub enum ConsumerAction {
    /// Instruct the ledger collaborator to finalize this hash, persisting
    /// the justification bytes.
    Finalize { block_hash: Vec<u8>, justification: Vec<u8> },
    /// The payload does not decode: log and drop.
    BadEncoding,
    /// The signature does not verify: log and drop.
    BadSignature,
}

impl View for ConsumerAction {
    type V = ConsumerDecision;

    open spec fn view(&self) -> ConsumerDecision {
        match self {
            ConsumerAction::Finalize { block_hash, justification } => ConsumerDecision::Finalize {
                block_hash: block_hash@,
                justification: justification@,
            },
            ConsumerAction::BadEncoding => ConsumerDecision::BadEncoding,
            ConsumerAction::BadSignature => ConsumerDecision::BadSignature,
        }
    }
}

/// Consumes one payload received on the topic: decode, verify against the
/// finality authority, and say what to do. A block is never finalized on
/// unverified input, and one bad payload never stalls the next.
pub fn consume_finality_message(authority: &SingletonFinalityAuthority, payload: &Vec<u8>) -> (r:
    ConsumerAction)
    ensures
        r@ == spec_consume(authority@, payload@),
{
    match SingletonFinalityMessage::decode(payload) {
        None => ConsumerAction::BadEncoding,
        Some(m) => {
            if sr25519_verify(authority.as_bytes(), &m.block_hash, m.proof.signature()) {
                let justification = m.proof.encode();
                ConsumerAction::Finalize { block_hash: m.block_hash, justification }
            } else {
                ConsumerAction::BadSignature
            }
        },
    }
}

/// What the attester does on one new-best notification: the message to
/// flood and the justification to persist locally.
#[derive(Debug)]
pub struct ProducerAction {
    /// The attestation itself.
    pub message: SingletonFinalityMessage,
    /// Its wire form, flooded on the fixed topic.
    pub encoded_message: Vec<u8>,
    /// The encoded justification handed to the local finalize call.
    pub justification: Vec<u8>,
}

/// Produces the attestation for one import notification on a node holding
/// the finality key. Only a notification for a new best block produces
/// anything; the attester signs the notified hash, floods the message, and
/// finalizes locally with the same justification, without waiting for its
/// own gossip round-trip.
pub fn produce_finality_message(
    pair: &SingletonFinalityAuthorityPair,
    block_hash: &Vec<u8>,
    is_new_best: bool,
) -> (r: Option<ProducerAction>)
    requires
        pair@.len() == 32,
        block_hash@.len() == 32,
    ensures
        r is Some <==> is_new_best,
        r matches Some(a) ==> {
            &&& message_wf(a.message@)
            &&& a.message@.block_hash == block_hash@
            &&& sr25519_verifies(sr25519_public_of(pair@), block_hash@, a.message@.proof)
            &&& a.encoded_message@ == spec_encode_message(a.message@)
            &&& a.justification@ == a.message@.proof
        },
{
    if !is_new_best {
        return None;
    }
    let sig = pair.sign(block_hash);
    let proof = match SingletonFinalityJustification::from_bytes(sig) {
        Some(p) => p,
        None => {
            proof {
                assert(false);
            }
            vstd::pervasive::unreached()
        },
    };
    let justification = proof.encode();
    let hash_copy = copy_range(block_hash, 0, 32);
    proof {
        assert(block_hash@.subrange(0, 32) =~= block_hash@);
    }
    let message = SingletonFinalityMessage { block_hash: hash_copy, proof };
    let encoded_message = message.encode();
    Some(ProducerAction { message, encoded_message, justification })
}

/// A flooded attestation is applied by every consumer configured with the
/// matching public key: consuming the encoding of a well-formed message
/// whose signature verifies finalizes exactly the message's hash, with the
/// message's signature as the persisted justification.
pub proof fn lemma_flooded_attestation_applied(fk: Seq<u8>, m: FinalityMessageView)
    requires
        message_wf(m),
        sr25519_verifies(fk, m.block_hash, m.proof),
    ensures
        spec_consume(fk, spec_encode_message(m)) == (ConsumerDecision::Finalize {
            block_hash: m.block_hash,
            justification: m.proof,
        }),
{
    lemma_message_codec_roundtrip(m);
}

/// A payload that does not decode, or whose signature does not verify, is
/// dropped; finalization is instructed only for a hash whose signature
/// verified.
pub proof fn lemma_unverified_message_dropped(fk: Seq<u8>, payload: Seq<u8>)
    ensures
        payload.len() < 96 ==> spec_consume(fk, payload) == ConsumerDecision::BadEncoding,
        payload.len() >= 96 && !sr25519_verifies(
            fk,
            payload.subrange(0, 32),
            payload.subrange(32, 96),
        ) ==> spec_consume(fk, payload) == ConsumerDecision::BadSignature,
        spec_consume(fk, payload) matches ConsumerDecision::Finalize { block_hash, justification }
            ==> sr25519_verifies(fk, block_hash, justification),
{
}

} // verus!
