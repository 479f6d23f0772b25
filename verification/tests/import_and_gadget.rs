use blake2::Digest;

use singleton_consensus::author::build_authored_import;
use singleton_consensus::crypto::sr25519_verify;
use singleton_consensus::crypto::SingletonBlockAuthorityPair;
use singleton_consensus::crypto::SingletonFinalityAuthorityPair;
use singleton_consensus::digest::DigestItem;
use singleton_consensus::digest::Header;
use singleton_consensus::digest::header_hash;
use singleton_consensus::digest::singleton_engine_id;
use singleton_consensus::gadget::AllowAll;
use singleton_consensus::gadget::ConsumerAction;
use singleton_consensus::gadget::GossipValidationResult;
use singleton_consensus::gadget::SingletonFinalityMessage;
use singleton_consensus::gadget::consume_finality_message;
use singleton_consensus::gadget::gossip_topic;
use singleton_consensus::gadget::produce_finality_message;
use singleton_consensus::gadget::singleton_protocol_name;
use singleton_consensus::import::BlockOrigin;
use singleton_consensus::import::ForkChoiceStrategy;
use singleton_consensus::import::JustificationOutcome;
use singleton_consensus::import::SingletonBlockImport;
use singleton_consensus::ledger::InMemoryLedger;
use singleton_consensus::verify::SingletonVerifier;

fn sample_header() -> Header {
    Header {
        parent_hash: vec![3u8; 32],
        number: 9,
        content: b"roots".to_vec(),
        digest: Vec::new(),
    }
}

fn block_pair() -> SingletonBlockAuthorityPair {
    SingletonBlockAuthorityPair::from_seed(vec![1u8; 32]).unwrap()
}

fn finality_pair() -> SingletonFinalityAuthorityPair {
    SingletonFinalityAuthorityPair::from_seed(vec![2u8; 32]).unwrap()
}

#[test]
fn authored_import_request_has_own_origin_and_verifiable_seal() {
    let pair = block_pair();
    let header = sample_header();
    let body = vec![b"tx".to_vec()];
    let params = build_authored_import(&pair, header.clone(), body.clone(), b"changes".to_vec());

    assert_eq!(params.origin, BlockOrigin::Own);
    assert_eq!(params.fork_choice, Some(ForkChoiceStrategy::LongestChain));
    assert!(params.justification.is_none());
    assert!(!params.finalized);
    assert_eq!(params.body, Some(body));
    assert_eq!(params.storage_changes, Some(b"changes".to_vec()));
    assert_eq!(params.post_digests.len(), 1);
    assert_eq!(params.header.digest.len(), header.digest.len());

    // Re-attach the post-digest seal and run the request through the
    // verifier: the seal verifies against the authority's public key.
    let mut sealed = params.header.clone();
    sealed.digest.push(params.post_digests[0].clone());
    assert_eq!(params.post_hash.as_deref(), Some(header_hash(&sealed).as_slice()));

    let verifier = SingletonVerifier::new(pair.public());
    let accepted = verifier
        .verify(BlockOrigin::Own, sealed, None, None)
        .expect("an authored block verifies against its own authority");
    assert_eq!(accepted.post_hash, params.post_hash);
}

#[test]
fn valid_justification_marks_request_finalized() {
    let finality = finality_pair();
    let pair = block_pair();
    let mut params =
        build_authored_import(&pair, sample_header(), Vec::new(), Vec::new());
    let post_hash = params.post_hash.clone().unwrap();
    let signature = finality.sign(&post_hash);
    params.justification = Some(signature.clone());

    let import = SingletonBlockImport::new(finality.public());
    let outcome = import.import_block(&mut params);

    assert_eq!(outcome, JustificationOutcome::Applied);
    assert!(params.finalized);
    assert_eq!(params.justification, Some(signature));
}

#[test]
fn mismatched_justification_imports_without_finalizing() {
    let finality = finality_pair();
    let pair = block_pair();
    let mut params =
        build_authored_import(&pair, sample_header(), Vec::new(), Vec::new());
    let other_hash = vec![0xAAu8; 32];
    params.justification = Some(finality.sign(&other_hash));

    let import = SingletonBlockImport::new(finality.public());
    let outcome = import.import_block(&mut params);

    assert_eq!(outcome, JustificationOutcome::Rejected);
    assert!(!params.finalized);
    assert!(params.justification.is_none());
}

#[test]
fn undecodable_justification_is_treated_as_absent() {
    let finality = finality_pair();
    let pair = block_pair();
    let mut params =
        build_authored_import(&pair, sample_header(), Vec::new(), Vec::new());
    params.justification = Some(vec![5u8; 20]);

    let import = SingletonBlockImport::new(finality.public());
    let outcome = import.import_block(&mut params);

    assert_eq!(outcome, JustificationOutcome::Absent);
    assert!(!params.finalized);
    assert!(params.justification.is_none());
}

#[test]
fn message_encoding_is_hash_then_signature() {
    let finality = finality_pair();
    let hash = vec![0x11u8; 32];
    let action = produce_finality_message(&finality, &hash, true).unwrap();
    assert_eq!(action.encoded_message.len(), 96);
    assert_eq!(&action.encoded_message[..32], hash.as_slice());
    assert_eq!(&action.encoded_message[32..], action.justification.as_slice());

    let decoded = SingletonFinalityMessage::decode(&action.encoded_message).unwrap();
    assert_eq!(decoded.block_hash, hash);
    assert_eq!(decoded.proof.signature(), &action.justification);
    assert!(SingletonFinalityMessage::decode(&vec![1u8; 95]).is_none());
}

#[test]
fn notification_that_is_not_new_best_produces_nothing() {
    let finality = finality_pair();
    assert!(produce_finality_message(&finality, &vec![0u8; 32], false).is_none());
}

#[test]
fn attester_finalizes_locally_and_peer_finalizes_from_gossip() {
    // Node A holds the finality key; node B holds only the public key.
    let finality = finality_pair();
    let public = finality.public();
    let mut ledger_a = InMemoryLedger::new();
    let mut ledger_b = InMemoryLedger::new();
    let best_hash = vec![0x42u8; 32];

    // A: new-best notification -> sign, flood, finalize locally.
    let action = produce_finality_message(&finality, &best_hash, true).unwrap();
    ledger_a.finalize(&best_hash, &action.justification);
    assert!(ledger_a.is_finalized(&best_hash));

    // B: receives the flooded payload -> verify, finalize.
    match consume_finality_message(&public, &action.encoded_message) {
        ConsumerAction::Finalize { block_hash, justification } => {
            assert_eq!(block_hash, best_hash);
            assert_eq!(justification, action.justification);
            ledger_b.finalize(&block_hash, &justification);
        }
        other => panic!("a valid attestation must finalize, got {:?}", other),
    }
    assert!(ledger_b.is_finalized(&best_hash));
}

#[test]
fn corrupted_signature_byte_never_reaches_finalize() {
    let finality = finality_pair();
    let public = finality.public();
    let mut ledger = InMemoryLedger::new();
    let best_hash = vec![0x42u8; 32];

    let action = produce_finality_message(&finality, &best_hash, true).unwrap();
    let mut corrupted = action.encoded_message.clone();
    corrupted[40] ^= 0x01;

    match consume_finality_message(&public, &corrupted) {
        ConsumerAction::BadSignature => {}
        other => panic!("a corrupted signature must be dropped, got {:?}", other),
    }
    assert!(!ledger.is_finalized(&best_hash));

    match consume_finality_message(&public, &corrupted[..50].to_vec()) {
        ConsumerAction::BadEncoding => {}
        other => panic!("a truncated payload must be dropped, got {:?}", other),
    }
    assert!(!ledger.is_finalized(&best_hash));
}

#[test]
fn finalizing_twice_is_idempotent() {
    // The attester finalizes locally, then its own gossiped message comes
    // back and is applied again: no error, no regression.
    let finality = finality_pair();
    let public = finality.public();
    let mut ledger = InMemoryLedger::new();
    let best_hash = vec![0x42u8; 32];

    let action = produce_finality_message(&finality, &best_hash, true).unwrap();
    ledger.finalize(&best_hash, &action.justification);
    match consume_finality_message(&public, &action.encoded_message) {
        ConsumerAction::Finalize { block_hash, justification } => {
            ledger.finalize(&block_hash, &justification);
        }
        other => panic!("the node's own attestation must verify, got {:?}", other),
    }
    assert!(ledger.is_finalized(&best_hash));

    // An earlier finalization never regresses either.
    let older = vec![0x41u8; 32];
    ledger.finalize(&older, &action.justification);
    ledger.finalize(&best_hash, &action.justification);
    assert!(ledger.is_finalized(&older));
    assert!(ledger.is_finalized(&best_hash));
    assert!(!ledger.is_finalized(&vec![0x43u8; 32]));
}

#[test]
fn gossip_topic_is_the_hash_of_the_topic_string() {
    let topic = gossip_topic();
    assert_eq!(topic.len(), 32);

    let mut hasher = blake2::Blake2b::<blake2::digest::consts::U32>::new();
    hasher.update(b"singleton");
    assert_eq!(topic.as_slice(), hasher.finalize().as_slice());

    assert_eq!(singleton_protocol_name(), b"/barcamp/singleton/1".to_vec());
}

#[test]
fn allow_all_admits_everything_under_the_fixed_topic() {
    let topic = gossip_topic();
    let policy = AllowAll { topic: topic.clone() };
    let GossipValidationResult::ProcessAndKeep(t) =
        policy.validate(&b"peer".to_vec(), &b"payload".to_vec());
    assert_eq!(t, topic);
}

#[test]
fn signatures_verify_under_the_derived_public_key() {
    let seed = vec![2u8; 32];
    let pair = SingletonFinalityAuthorityPair::from_seed(seed.clone()).unwrap();
    let public = pair.public();

    // The derived public key matches schnorrkel's own derivation.
    let mini = schnorrkel::MiniSecretKey::from_bytes(&seed).unwrap();
    let expected = mini.expand_to_public(schnorrkel::ExpansionMode::Ed25519);
    assert_eq!(public.as_bytes().as_slice(), &expected.to_bytes());

    let msg = b"a message".to_vec();
    let sig = pair.sign(&msg);
    assert!(sr25519_verify(public.as_bytes(), &msg, &sig));
    assert!(!sr25519_verify(public.as_bytes(), &b"another".to_vec(), &sig));
}
