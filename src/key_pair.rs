//! Ed25519 keys as plain bytes, and the signing capability of an issuer.

use crate::trust::{PUBLIC_KEY_LEN, SIGNATURE_LEN};
use libp2p_identity::ed25519;
use vstd::prelude::*;

verus! {

/// Whether `key` is the compressed form of an Ed25519 public key
/// (as the key parser of libp2p-identity decides it).
pub uninterp spec fn key_accepted(key: Seq<u8>) -> bool;

/// Whether `sig` is an Ed25519 signature of `msg` under the public key
/// whose compressed form is `key` (as libp2p-identity decides it).
pub uninterp spec fn signature_accepted(key: Seq<u8>, msg: Seq<u8>, sig: Seq<u8>) -> bool;

/// libp2p-identity's Ed25519 keypair, carried opaque inside `KeyPair`.
#[verifier::external_type_specification]
#[verifier::external_body]
pub struct ExKeypair(ed25519::Keypair);

/// Relies on `ed25519::PublicKey::try_from_bytes`: it accepts exactly 32 bytes
/// that decompress to a curve point, and its verdict depends on the bytes alone.
#[verifier::external_body]
fn parse_key(bytes: &[u8]) -> (r: bool)
    ensures
        r == key_accepted(bytes@),
        r ==> bytes@.len() == PUBLIC_KEY_LEN,
{
    ed25519::PublicKey::try_from_bytes(bytes).is_ok()
}

/// Relies on `ed25519::PublicKey::verify`, on the key that
/// `ed25519::PublicKey::try_from_bytes` reads from `key`; bytes that are no
/// key verify nothing.
#[verifier::external_body]
pub(crate) fn verify_signature(key: &[u8], msg: &[u8], sig: &[u8]) -> (r: bool)
    ensures
        r == signature_accepted(key@, msg@, sig@),
{
    match ed25519::PublicKey::try_from_bytes(key) {
        Ok(k) => k.verify(msg, sig),
        Err(_) => false,
    }
}

/// Relies on `ed25519::Keypair::generate`: a fresh random keypair.
#[verifier::external_body]
fn generate_keypair() -> (r: ed25519::Keypair) {
    ed25519::Keypair::generate()
}

/// Relies on `ed25519::Keypair::public` and `ed25519::PublicKey::to_bytes`:
/// the compressed public key, 32 bytes.
#[verifier::external_body]
fn public_bytes(k: &ed25519::Keypair) -> (r: Vec<u8>)
    ensures
        r@.len() == PUBLIC_KEY_LEN,
{
    k.public().to_bytes().to_vec()
}

/// Relies on `ed25519::Keypair::sign`: a 64-byte Ed25519 signature, which
/// `ed25519::PublicKey::verify` accepts under the keypair's own public key.
/// `kp.public` is that key: `KeyPair::generate` is the only constructor.
#[verifier::external_body]
pub(crate) fn sign_message(kp: &KeyPair, msg: &[u8]) -> (r: Vec<u8>)
    ensures
        r@.len() == SIGNATURE_LEN,
        signature_accepted(kp@, msg@, r@),
{
    kp.key.sign(msg)
}

/// An Ed25519 public key, held as its 32-byte compressed form.
#[derive(Clone, Debug)]
pub struct PublicKey {
    bytes: Vec<u8>,
}

impl View for PublicKey {
    type V = Seq<u8>;

    closed spec fn view(&self) -> Seq<u8> {
        self.bytes@
    }
}

impl PublicKey {
    /// A well-formed key: the compressed form of a curve point.
    pub open spec fn wf(&self) -> bool {
        self@.len() == PUBLIC_KEY_LEN && key_accepted(self@)
    }

    /// Reads a public key from its compressed form; `None` unless the bytes
    /// are a key.
    pub fn from_bytes(bytes: &[u8]) -> (r: Option<PublicKey>)
        ensures
            r is Some <==> key_accepted(bytes@),
            r matches Some(k) ==> k@ == bytes@ && k.wf(),
    {
        if parse_key(bytes) {
            let mut v: Vec<u8> = Vec::new();
            v.extend_from_slice(bytes);
            Some(PublicKey { bytes: v })
        } else {
            None
        }
    }

    /// The compressed form of the key.
    pub fn as_bytes(&self) -> (r: &[u8])
        ensures
            r@ == self@,
    {
        self.bytes.as_slice()
    }
}

impl PartialEq for PublicKey {
    fn eq(&self, other: &PublicKey) -> (r: bool) {
        bytes_equal(self.bytes.as_slice(), other.bytes.as_slice())
    }
}

impl vstd::std_specs::cmp::PartialEqSpecImpl for PublicKey {
    open spec fn obeys_eq_spec() -> bool {
        true
    }

    open spec fn eq_spec(&self, other: &PublicKey) -> bool {
        self@ == other@
    }
}

/// Whether two byte strings are equal.
pub fn bytes_equal(a: &[u8], b: &[u8]) -> (r: bool)
    ensures
        r == (a@ == b@),
{
    if a.len() != b.len() {
        return false;
    }
    let mut i: usize = 0;
    while i < a.len()
        invariant
            a@.len() == b@.len(),
            i <= a@.len(),
            a@.subrange(0, i as int) == b@.subrange(0, i as int),
        decreases a@.len() - i,
    {
        if a[i] != b[i] {
            assert(a@.subrange(0, i as int + 1)[i as int] != b@.subrange(0, i as int + 1)[i as int]);
            return false;
        }
        assert(a@.subrange(0, i as int + 1) =~= a@.subrange(0, i as int).push(a@[i as int]));
        assert(b@.subrange(0, i as int + 1) =~= b@.subrange(0, i as int).push(b@[i as int]));
        i = i + 1;
    }
    assert(a@ =~= a@.subrange(0, i as int));
    assert(b@ =~= b@.subrange(0, i as int));
    true
}

/// The signing capability of an issuer: an Ed25519 keypair and its public key.
/// The fields are private and `generate` is the only constructor, so `public`
/// is always the compressed public key of `key`.
pub struct KeyPair {
    key: ed25519::Keypair,
    public: PublicKey,
}

impl View for KeyPair {
    type V = Seq<u8>;

    /// The compressed public key of the pair.
    closed spec fn view(&self) -> Seq<u8> {
        self.public@
    }
}

impl KeyPair {
    /// A fresh random keypair.
    pub fn generate() -> (r: KeyPair)
        ensures
            r@.len() == PUBLIC_KEY_LEN,
    {
        let key = generate_keypair();
        let bytes = public_bytes(&key);
        KeyPair { key, public: PublicKey { bytes } }
    }

    /// The public key of the pair.
    pub fn public_key(&self) -> (r: PublicKey)
        ensures
            r@ == self@,
    {
        let mut v: Vec<u8> = Vec::new();
        v.extend_from_slice(self.public.bytes.as_slice());
        PublicKey { bytes: v }
    }
}

} // verus!
