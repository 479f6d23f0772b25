//! The two authority keypairs and the cryptographic capabilities the
//! protocol needs: sr25519 signing and verification, and Blake2b-256
//! hashing. The block authority and the finality authority are independent
//! trust roots; each is a separate key type, so a key of one role cannot be
//! handed to a call site of the other.

use vstd::prelude::*;

verus! {

/// Whether `sig` is an sr25519 signature over `msg` under the public key
/// `public`, in the fixed "substrate" signing context. The outcome is a
/// function of the three byte strings alone; it is stated only through the
/// trusted items below.
pub uninterp spec fn sr25519_verifies(public: Seq<u8>, msg: Seq<u8>, sig: Seq<u8>) -> bool;

/// The sr25519 public key derived from a 32-byte seed.
pub uninterp spec fn sr25519_public_of(seed: Seq<u8>) -> Seq<u8>;

/// The 32-byte Blake2b-256 digest of a byte string.
pub uninterp spec fn blake2_256_of(data: Seq<u8>) -> Seq<u8>;

/// Relies on schnorrkel's `PublicKey::verify_simple` under the "substrate"
/// signing context, with `PublicKey::from_bytes` and `Signature::from_bytes`
/// reading the raw bytes first; a failure of either reader counts as a
/// failed verification. The outcome is deterministic in the three byte
/// strings.
#[verifier::external_body]
pub fn sr25519_verify(public: &Vec<u8>, msg: &Vec<u8>, sig: &Vec<u8>) -> (r: bool)
    ensures
        r == sr25519_verifies(public@, msg@, sig@),
{
    let pk = match schnorrkel::PublicKey::from_bytes(public.as_slice()) {
        Ok(pk) => pk,
        Err(_) => return false,
    };
    let parsed = match schnorrkel::Signature::from_bytes(sig.as_slice()) {
        Ok(s) => s,
        Err(_) => return false,
    };
    pk.verify_simple(b"substrate", msg.as_slice(), &parsed).is_ok()
}

/// Relies on schnorrkel's `MiniSecretKey::expand_to_public` in Ed25519
/// expansion mode: the public key is derived from the 32-byte seed alone.
#[verifier::external_body]
pub fn sr25519_public(seed: &Vec<u8>) -> (r: Vec<u8>)
    requires
        seed@.len() == 32,
    ensures
        r@ == sr25519_public_of(seed@),
        r@.len() == 32,
{
    let mini = schnorrkel::MiniSecretKey::from_bytes(seed.as_slice())
        .expect("a 32-byte seed is a valid mini secret key");
    mini.expand_to_public(schnorrkel::ExpansionMode::Ed25519).to_bytes().to_vec()
}

/// Relies on schnorrkel's `Keypair::sign_simple` under the "substrate"
/// context. Signing draws fresh randomness, so nothing is claimed of the
/// signature bytes themselves; what holds of every outcome is that the
/// signature verifies under the keypair's public key for the same message.
#[verifier::external_body]
pub fn sr25519_sign(seed: &Vec<u8>, msg: &Vec<u8>) -> (sig: Vec<u8>)
    requires
        seed@.len() == 32,
    ensures
        sig@.len() == 64,
        sr25519_verifies(sr25519_public_of(seed@), msg@, sig@),
{
    let mini = schnorrkel::MiniSecretKey::from_bytes(seed.as_slice())
        .expect("a 32-byte seed is a valid mini secret key");
    let keypair = mini.expand_to_keypair(schnorrkel::ExpansionMode::Ed25519);
    keypair.sign_simple(b"substrate", msg.as_slice()).to_bytes().to_vec()
}

/// Relies on the blake2 crate's `Blake2b` with a 32-byte output size: the
/// digest is a function of the input bytes alone.
#[verifier::external_body]
pub fn blake2_256(data: &Vec<u8>) -> (r: Vec<u8>)
    ensures
        r@ == blake2_256_of(data@),
        r@.len() == 32,
{
    let mut hasher: blake2::Blake2b<blake2::digest::consts::U32> = blake2::Digest::new();
    blake2::Digest::update(&mut hasher, data.as_slice());
    blake2::Digest::finalize(hasher).to_vec()
}

/// The public half of the block-authority keypair; configuration, fixed for
/// the node's lifetime.
#[derive(Clone, Debug)]
pub struct SingletonBlockAuthority {
    key: Vec<u8>,
}

/// The private half of the block-authority keypair, held as its 32-byte
/// seed; its presence authorizes this node to author blocks.
#[derive(Debug)]
pub struct SingletonBlockAuthorityPair {
    seed: Vec<u8>,
}

/// The public half of the finality-authority keypair.
#[derive(Clone, Debug)]
pub struct SingletonFinalityAuthority {
    key: Vec<u8>,
}

/// The private half of the finality-authority keypair, held as its 32-byte
/// seed; its presence authorizes this node to attest finality.
#[derive(Debug)]
pub struct SingletonFinalityAuthorityPair {
    seed: Vec<u8>,
}

impl View for SingletonBlockAuthority {
    type V = Seq<u8>;

    closed spec fn view(&self) -> Seq<u8> {
        self.key@
    }
}

impl View for SingletonBlockAuthorityPair {
    type V = Seq<u8>;

    closed spec fn view(&self) -> Seq<u8> {
        self.seed@
    }
}

impl View for SingletonFinalityAuthority {
    type V = Seq<u8>;

    closed spec fn view(&self) -> Seq<u8> {
        self.key@
    }
}

impl View for SingletonFinalityAuthorityPair {
    type V = Seq<u8>;

    closed spec fn view(&self) -> Seq<u8> {
        self.seed@
    }
}

impl SingletonBlockAuthority {
    /// Wraps 32 public-key bytes; rejects any other length.
    pub fn from_bytes(key: Vec<u8>) -> (r: Option<SingletonBlockAuthority>)
        ensures
            r is Some <==> key@.len() == 32,
            r matches Some(a) ==> a@ == key@,
    {
        if key.len() == 32 {
            Some(SingletonBlockAuthority { key })
        } else {
            None
        }
    }

    /// The raw public-key bytes.
    pub fn as_bytes(&self) -> (r: &Vec<u8>)
        ensures
            r@ == self@,
    {
        &self.key
    }
}

impl SingletonBlockAuthorityPair {
    /// Wraps a 32-byte seed; rejects any other length.
    pub fn from_seed(seed: Vec<u8>) -> (r: Option<SingletonBlockAuthorityPair>)
        ensures
            r is Some <==> seed@.len() == 32,
            r matches Some(p) ==> p@ == seed@,
    {
        if seed.len() == 32 {
            Some(SingletonBlockAuthorityPair { seed })
        } else {
            None
        }
    }

    /// The public half derived from this seed.
    pub fn public(&self) -> (r: SingletonBlockAuthority)
        requires
            self@.len() == 32,
        ensures
            r@ == sr25519_public_of(self@),
    {
        SingletonBlockAuthority { key: sr25519_public(&self.seed) }
    }

    /// Signs a message with this key.
    pub fn sign(&self, msg: &Vec<u8>) -> (sig: Vec<u8>)
        requires
            self@.len() == 32,
        ensures
            sig@.len() == 64,
            sr25519_verifies(sr25519_public_of(self@), msg@, sig@),
    {
        sr25519_sign(&self.seed, msg)
    }
}

impl SingletonFinalityAuthority {
    /// Wraps 32 public-key bytes; rejects any other length.
    pub fn from_bytes(key: Vec<u8>) -> (r: Option<SingletonFinalityAuthority>)
        ensures
            r is Some <==> key@.len() == 32,
            r matches Some(a) ==> a@ == key@,
    {
        if key.len() == 32 {
            Some(SingletonFinalityAuthority { key })
        } else {
            None
        }
    }

    /// The raw public-key bytes.
    pub fn as_bytes(&self) -> (r: &Vec<u8>)
        ensures
            r@ == self@,
    {
        &self.key
    }
}

impl SingletonFinalityAuthorityPair {
    /// Wraps a 32-byte seed; rejects any other length.
    pub fn from_seed(seed: Vec<u8>) -> (r: Option<SingletonFinalityAuthorityPair>)
        ensures
            r is Some <==> seed@.len() == 32,
            r matches Some(p) ==> p@ == seed@,
    {
        if seed.len() == 32 {
            Some(SingletonFinalityAuthorityPair { seed })
        } else {
            None
        }
    }

    /// The public half derived from this seed.
    pub fn public(&self) -> (r: SingletonFinalityAuthority)
        requires
            self@.len() == 32,
        ensures
            r@ == sr25519_public_of(self@),
    {
        SingletonFinalityAuthority { key: sr25519_public(&self.seed) }
    }

    /// Signs a message with this key.
    pub fn sign(&self, msg: &Vec<u8>) -> (sig: Vec<u8>)
        requires
            self@.len() == 32,
        ensures
            sig@.len() == 64,
            sr25519_verifies(sr25519_public_of(self@), msg@, sig@),
    {
        sr25519_sign(&self.seed, msg)
    }
}

} // verus!
