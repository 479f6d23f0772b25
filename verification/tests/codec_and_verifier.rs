use singleton_consensus::codec::SingletonFinalityJustification;
use singleton_consensus::codec::SingletonSeal;
use singleton_consensus::crypto::SingletonBlockAuthorityPair;
use singleton_consensus::digest::DigestItem;
use singleton_consensus::digest::EngineId;
use singleton_consensus::digest::Header;
use singleton_consensus::digest::header_hash;
use singleton_consensus::digest::singleton_engine_id;
use singleton_consensus::import::BlockOrigin;
use singleton_consensus::import::ForkChoiceStrategy;
use singleton_consensus::verify::SingletonVerifier;
use singleton_consensus::verify::VerifierError;

fn sample_header() -> Header {
    Header {
        parent_hash: vec![7u8; 32],
        number: 5,
        content: b"state and extrinsic roots".to_vec(),
        digest: Vec::new(),
    }
}

fn block_pair() -> SingletonBlockAuthorityPair {
    SingletonBlockAuthorityPair::from_seed(vec![1u8; 32]).unwrap()
}

/// Seals `header` in place with `pair`'s key and returns the seal item.
fn seal_header(pair: &SingletonBlockAuthorityPair, header: &mut Header) -> DigestItem {
    let (_post_hash, seal) = singleton_consensus::author::seal_block(pair, header);
    header.digest.push(seal.clone());
    seal
}

#[test]
fn engine_id_is_sgtn() {
    let id = singleton_engine_id();
    assert_eq!([id.b0, id.b1, id.b2, id.b3], *b"SGTN");
}

#[test]
fn seal_roundtrips_for_arbitrary_signature_bytes() {
    let mut bytes: Vec<u8> = (0..64u8).collect();
    bytes[63] |= 128;
    let seal = SingletonSeal::from_bytes(bytes.clone()).unwrap();
    let encoded = seal.encode();
    assert_eq!(encoded, bytes);
    let decoded = SingletonSeal::decode(&encoded).unwrap();
    assert_eq!(decoded.signature(), &bytes);
}

#[test]
fn seal_decode_ignores_trailing_bytes_and_rejects_short_input() {
    let mut buffer = vec![9u8; 70];
    buffer[64] = 200;
    let decoded = SingletonSeal::decode(&buffer).unwrap();
    assert_eq!(decoded.signature().as_slice(), &buffer[..64]);
    assert!(SingletonSeal::decode(&vec![9u8; 63]).is_none());
    assert!(SingletonSeal::from_bytes(vec![9u8; 63]).is_none());
    assert!(SingletonFinalityJustification::decode(&vec![9u8; 63]).is_none());
}

#[test]
fn valid_seal_is_accepted_and_recovered_identically() {
    let pair = block_pair();
    let mut header = sample_header();
    let unsealed = header.clone();
    let seal = seal_header(&pair, &mut header);

    let seal_bytes = match &seal {
        DigestItem::Seal { engine, payload } => {
            assert_eq!(*engine, singleton_engine_id());
            payload.clone()
        }
        DigestItem::Other { .. } => panic!("seal_block must return a seal item"),
    };

    let sealed_hash = header_hash(&header);
    let verifier = SingletonVerifier::new(pair.public());
    let params = verifier
        .verify(BlockOrigin::NetworkBroadcast, header, None, None)
        .expect("a correctly sealed header is accepted");

    assert_eq!(params.origin, BlockOrigin::NetworkBroadcast);
    assert_eq!(params.header.digest.len(), unsealed.digest.len());
    assert_eq!(params.post_hash.as_deref(), Some(sealed_hash.as_slice()));
    assert!(!params.finalized);
    assert_eq!(params.fork_choice, Some(ForkChoiceStrategy::LongestChain));
    assert_eq!(params.post_digests.len(), 1);
    match &params.post_digests[0] {
        DigestItem::Seal { engine, payload } => {
            assert_eq!(*engine, singleton_engine_id());
            // The recovered post-digest seal re-decodes to the signature
            // that sealed the header.
            let redecoded = SingletonSeal::decode(payload).unwrap();
            assert_eq!(redecoded.signature(), &seal_bytes);
        }
        DigestItem::Other { .. } => panic!("the post-digest must be the recovered seal"),
    }
}

#[test]
fn unsealed_header_is_rejected() {
    let verifier = SingletonVerifier::new(block_pair().public());
    let err = verifier
        .verify(BlockOrigin::NetworkBroadcast, sample_header(), None, None)
        .unwrap_err();
    assert_eq!(err, VerifierError::UnsealedHeader);
    assert_eq!(err.message(), "Unsealed header");
}

#[test]
fn wrong_engine_seal_is_rejected() {
    let pair = block_pair();
    let mut header = sample_header();
    seal_header(&pair, &mut header);
    match header.digest.last_mut().unwrap() {
        DigestItem::Seal { engine, .. } => {
            *engine = EngineId { b0: 66, b1: 65, b2: 66, b3: 69 };
        }
        DigestItem::Other { .. } => panic!("last item must be the seal"),
    }
    let verifier = SingletonVerifier::new(pair.public());
    let err = verifier
        .verify(BlockOrigin::NetworkBroadcast, header, None, None)
        .unwrap_err();
    assert_eq!(err, VerifierError::WrongEngineSeal);
    assert_eq!(err.message(), "Header seal for wrong engine");
}

#[test]
fn undecodable_seal_is_rejected() {
    let pair = block_pair();
    let mut header = sample_header();
    header.digest.push(DigestItem::Seal {
        engine: singleton_engine_id(),
        payload: vec![1u8; 10],
    });
    let verifier = SingletonVerifier::new(pair.public());
    let err = verifier
        .verify(BlockOrigin::NetworkBroadcast, header, None, None)
        .unwrap_err();
    assert_eq!(err, VerifierError::InvalidSealEncoding);
    assert_eq!(err.message(), "Header with invalid seal");
}

#[test]
fn tampered_seal_signature_is_rejected() {
    let pair = block_pair();
    let mut header = sample_header();
    seal_header(&pair, &mut header);
    match header.digest.last_mut().unwrap() {
        DigestItem::Seal { payload, .. } => {
            payload[3] ^= 0x40;
        }
        DigestItem::Other { .. } => panic!("last item must be the seal"),
    }
    let verifier = SingletonVerifier::new(pair.public());
    let err = verifier
        .verify(BlockOrigin::NetworkBroadcast, header, None, None)
        .unwrap_err();
    assert_eq!(err, VerifierError::InvalidSealSignature);
    assert_eq!(err.message(), "Invalid seal signature.");
}

#[test]
fn seal_from_another_key_is_rejected() {
    let other = SingletonBlockAuthorityPair::from_seed(vec![9u8; 32]).unwrap();
    let mut header = sample_header();
    seal_header(&other, &mut header);
    let verifier = SingletonVerifier::new(block_pair().public());
    let err = verifier
        .verify(BlockOrigin::NetworkBroadcast, header, None, None)
        .unwrap_err();
    assert_eq!(err, VerifierError::InvalidSealSignature);
}

#[test]
fn rejection_reasons_are_distinguishable() {
    assert_ne!(VerifierError::UnsealedHeader, VerifierError::WrongEngineSeal);
    assert_ne!(VerifierError::UnsealedHeader, VerifierError::InvalidSealEncoding);
    assert_ne!(VerifierError::UnsealedHeader, VerifierError::InvalidSealSignature);
    assert_ne!(VerifierError::WrongEngineSeal, VerifierError::InvalidSealEncoding);
    assert_ne!(VerifierError::WrongEngineSeal, VerifierError::InvalidSealSignature);
    assert_ne!(VerifierError::InvalidSealEncoding, VerifierError::InvalidSealSignature);
}

#[test]
fn rejected_header_keeps_its_digest_for_downstream_verifiers() {
    let pair = block_pair();
    let mut header = sample_header();
    seal_header(&pair, &mut header);
    match header.digest.last_mut().unwrap() {
        DigestItem::Seal { engine, .. } => {
            *engine = EngineId { b0: 66, b1: 65, b2: 66, b3: 69 };
        }
        DigestItem::Other { .. } => panic!("last item must be the seal"),
    }

    let verifier = SingletonVerifier::new(pair.public());
    let before = header.digest.len();
    let err = verifier.check_header(&mut header).unwrap_err();
    assert_eq!(err, VerifierError::WrongEngineSeal);
    assert_eq!(header.digest.len(), before);

    // An accepted header, by contrast, comes back with the seal stripped.
    let mut sealed = sample_header();
    let seal = seal_header(&pair, &mut sealed);
    let recovered = verifier.check_header(&mut sealed).unwrap();
    assert_eq!(sealed.digest.len(), 0);
    match &seal {
        DigestItem::Seal { payload, .. } => assert_eq!(recovered.signature(), payload),
        DigestItem::Other { .. } => panic!("seal_block must return a seal item"),
    }
}
