//! The trust element: a signed claim that a public key is vouched for until an
//! expiration time, its verification, and its fixed-width wire encoding.

use crate::key_pair::{
    bytes_equal, key_accepted, sign_message, signature_accepted, verify_signature, KeyPair, PublicKey,
};
use vstd::bytes::{
    lemma_auto_spec_u64_to_from_le_bytes, spec_u64_from_le_bytes, spec_u64_to_le_bytes,
    u64_from_le_bytes, u64_to_le_bytes,
};
use vstd::prelude::*;

verus! {

/// Width in bytes of a signature.
pub const SIGNATURE_LEN: usize = 64;

/// Width in bytes of a public key.
pub const PUBLIC_KEY_LEN: usize = 32;

/// Width in bytes of the expiration timestamp.
pub const EXPIRATION_LEN: usize = 8;

/// Width in bytes of the issued-at timestamp.
pub const ISSUED_LEN: usize = 8;

/// Width in bytes of an encoded trust element.
pub const TRUST_LEN: usize = SIGNATURE_LEN + PUBLIC_KEY_LEN + EXPIRATION_LEN + ISSUED_LEN;

/// Width in bytes of the signed message.
pub const MESSAGE_LEN: usize = PUBLIC_KEY_LEN + EXPIRATION_LEN + ISSUED_LEN;

/// Why a trust element was rejected.
#[derive(Clone, Copy, Debug, PartialEq, Eq, Structural)]
pub enum VerificationError {
    /// The reference time is past the expiration.
    Expired,
    /// The signature does not cover the element under the issuer's key.
    Forged,
}

/// Why a byte string is no encoded trust element.
#[derive(Clone, Copy, Debug, PartialEq, Eq, Structural)]
pub enum DecodeError {
    /// The buffer is not `expected` bytes long.
    BadLength { expected: usize, actual: usize },
    /// The subject key bytes are not a public key.
    KeyError,
}

/// One element in a chain of trust: the issuer's signature over the subject
/// key and the two timestamps (milliseconds).
#[derive(Clone, Debug)]
pub struct Trust {
    /// The key being vouched for.
    pub pk: PublicKey,
    /// Expiration of the trust, in milliseconds.
    pub expires_at: u64,
    /// The issuer's signature over the canonical message.
    pub signature: Vec<u8>,
    /// Creation time, in milliseconds.
    pub issued_at: u64,
}

/// A trust element as plain values.
pub struct TrustView {
    pub pk: Seq<u8>,
    pub expires_at: u64,
    pub signature: Seq<u8>,
    pub issued_at: u64,
}

/// The bytes that are signed: subject key, then the expiration and the
/// issued-at time as little-endian 64-bit millisecond counts, each at its full
/// eight bytes, as on the wire. The wire encoding orders the fields otherwise.
pub open spec fn canonical_message(pk: Seq<u8>, expires_at: u64, issued_at: u64) -> Seq<u8> {
    pk + spec_u64_to_le_bytes(expires_at) + spec_u64_to_le_bytes(issued_at)
}

impl TrustView {
    /// The message that the signature must cover.
    pub open spec fn message(self) -> Seq<u8> {
        canonical_message(self.pk, self.expires_at, self.issued_at)
    }

    /// The wire layout: subject key, signature, expiration, issued-at.
    pub open spec fn encoding(self) -> Seq<u8> {
        self.pk + self.signature + spec_u64_to_le_bytes(self.expires_at) + spec_u64_to_le_bytes(
            self.issued_at,
        )
    }

    /// The fields have their protocol widths and the subject key is a key.
    pub open spec fn wf(self) -> bool {
        &&& self.pk.len() == PUBLIC_KEY_LEN
        &&& key_accepted(self.pk)
        &&& self.signature.len() == SIGNATURE_LEN
    }

    /// The signature covers the element under the issuer key `issuer`.
    pub open spec fn signed_by(self, issuer: Seq<u8>) -> bool {
        signature_accepted(issuer, self.message(), self.signature)
    }
}

impl View for Trust {
    type V = TrustView;

    open spec fn view(&self) -> TrustView {
        TrustView {
            pk: self.pk@,
            expires_at: self.expires_at,
            signature: self.signature@,
            issued_at: self.issued_at,
        }
    }
}

/// What verifying `t` against issuer key `issuer` at time `time` gives:
/// expiration first, then the signature.
pub open spec fn verify_outcome(t: TrustView, issuer: Seq<u8>, time: u64) -> Result<
    (),
    VerificationError,
> {
    if t.expires_at < time {
        Err(VerificationError::Expired)
    } else if !t.signed_by(issuer) {
        Err(VerificationError::Forged)
    } else {
        Ok(())
    }
}

/// What decoding `b` gives.
pub open spec fn decode_outcome(b: Seq<u8>) -> Result<TrustView, DecodeError> {
    if b.len() != TRUST_LEN {
        Err(DecodeError::BadLength { expected: TRUST_LEN, actual: b.len() as usize })
    } else if !key_accepted(b.subrange(0, 32)) {
        Err(DecodeError::KeyError)
    } else {
        Ok(
            TrustView {
                pk: b.subrange(0, 32),
                signature: b.subrange(32, 96),
                expires_at: spec_u64_from_le_bytes(b.subrange(96, 104)),
                issued_at: spec_u64_from_le_bytes(b.subrange(104, 112)),
            },
        )
    }
}

impl Trust {
    /// An element from its four fields, as they are; nothing is checked.
    pub fn new(pk: PublicKey, expires_at: u64, issued_at: u64, signature: Vec<u8>) -> (r: Self)
        ensures
            r@ == (TrustView { pk: pk@, expires_at, signature: signature@, issued_at }),
    {
        Trust { pk, expires_at, issued_at, signature }
    }

    /// Signs the claim that `pk` is trusted until `expires_at` with the
    /// issuer's keypair.
    pub fn create(issued_by: &KeyPair, pk: PublicKey, expires_at: u64, issued_at: u64) -> (r: Self)
        ensures
            r.pk@ == pk@,
            r.expires_at == expires_at,
            r.issued_at == issued_at,
            r.signature@.len() == SIGNATURE_LEN,
            r@.signed_by(issued_by@),
    {
        let msg = Self::trust_to_bytes(&pk, expires_at, issued_at);
        let signature = sign_message(issued_by, msg.as_slice());
        Trust { pk, expires_at, signature, issued_at }
    }

    /// Checks that `trust` has not expired at `time` and that its signature
    /// covers it under the issuer key `issued_by`.
    pub fn verify(trust: &Trust, issued_by: &PublicKey, time: u64) -> (r: Result<
        (),
        VerificationError,
    >)
        ensures
            r == verify_outcome(trust@, issued_by@, time),
            trust.expires_at < time ==> r == Err::<(), VerificationError>(
                VerificationError::Expired,
            ),
    {
        if trust.expires_at < time {
            return Err(VerificationError::Expired);
        }
        let msg = Self::trust_to_bytes(&trust.pk, trust.expires_at, trust.issued_at);
        if !verify_signature(issued_by.as_bytes(), msg.as_slice(), trust.signature.as_slice()) {
            return Err(VerificationError::Forged);
        }
        Ok(())
    }

    /// The canonical message that is signed for these fields.
    pub fn trust_to_bytes(pk: &PublicKey, expires_at: u64, issued_at: u64) -> (r: Vec<u8>)
        ensures
            r@ == canonical_message(pk@, expires_at, issued_at),
    {
        let mut msg: Vec<u8> = Vec::with_capacity(MESSAGE_LEN);
        msg.extend_from_slice(pk.as_bytes());
        let e = u64_to_le_bytes(expires_at);
        msg.extend_from_slice(e.as_slice());
        let i = u64_to_le_bytes(issued_at);
        msg.extend_from_slice(i.as_slice());
        msg
    }

    /// The wire encoding of the element.
    pub fn encode(&self) -> (r: Vec<u8>)
        ensures
            r@ == self@.encoding(),
    {
        let mut v: Vec<u8> = Vec::with_capacity(TRUST_LEN);
        v.extend_from_slice(self.pk.as_bytes());
        v.extend_from_slice(self.signature.as_slice());
        let e = u64_to_le_bytes(self.expires_at);
        v.extend_from_slice(e.as_slice());
        let i = u64_to_le_bytes(self.issued_at);
        v.extend_from_slice(i.as_slice());
        v
    }

    /// Reads an element from its wire encoding; the signature is not checked.
    pub fn decode(arr: &[u8]) -> (r: Result<Self, DecodeError>)
        ensures
            match r {
                Ok(t) => decode_outcome(arr@) == Ok::<TrustView, DecodeError>(t@),
                Err(e) => decode_outcome(arr@) == Err::<TrustView, DecodeError>(e),
            },
            arr@.len() != TRUST_LEN ==> r == Err::<Trust, DecodeError>(
                DecodeError::BadLength { expected: TRUST_LEN, actual: arr@.len() as usize },
            ),
    {
        if arr.len() != TRUST_LEN {
            return Err(DecodeError::BadLength { expected: TRUST_LEN, actual: arr.len() });
        }
        let pk = match PublicKey::from_bytes(&arr[0..PUBLIC_KEY_LEN]) {
            Some(k) => k,
            None => return Err(DecodeError::KeyError),
        };
        let mut signature: Vec<u8> = Vec::with_capacity(SIGNATURE_LEN);
        signature.extend_from_slice(&arr[PUBLIC_KEY_LEN..PUBLIC_KEY_LEN + SIGNATURE_LEN]);
        assert(signature@ =~= arr@.subrange(32, 96));
        let expires_at = u64_from_le_bytes(
            &arr[PUBLIC_KEY_LEN + SIGNATURE_LEN..PUBLIC_KEY_LEN + SIGNATURE_LEN + EXPIRATION_LEN],
        );
        let issued_at = u64_from_le_bytes(
            &arr[PUBLIC_KEY_LEN + SIGNATURE_LEN + EXPIRATION_LEN..TRUST_LEN],
        );
        Ok(Trust { pk, expires_at, signature, issued_at })
    }
}

impl PartialEq for Trust {
    fn eq(&self, other: &Trust) -> (r: bool) {
        bytes_equal(self.pk.as_bytes(), other.pk.as_bytes()) && self.expires_at == other.expires_at
            && bytes_equal(self.signature.as_slice(), other.signature.as_slice())
            && self.issued_at == other.issued_at
    }
}

impl vstd::std_specs::cmp::PartialEqSpecImpl for Trust {
    open spec fn obeys_eq_spec() -> bool {
        true
    }

    open spec fn eq_spec(&self, other: &Trust) -> bool {
        self@ == other@
    }
}

/// Decoding the encoding of a well-formed element gives the element back.
pub proof fn lemma_decode_encode(e: Trust)
    requires
        e@.wf(),
    ensures
        e@.encoding().len() == TRUST_LEN,
        decode_outcome(e@.encoding()) == Ok::<TrustView, DecodeError>(e@),
{
    lemma_auto_spec_u64_to_from_le_bytes();
    let b = e@.encoding();
    assert(b.subrange(0, 32) =~= e@.pk);
    assert(b.subrange(32, 96) =~= e@.signature);
    assert(b.subrange(96, 104) =~= spec_u64_to_le_bytes(e.expires_at));
    assert(b.subrange(104, 112) =~= spec_u64_to_le_bytes(e.issued_at));
}

/// An element whose signature covers it under the issuer's key, as `create`
/// makes it, passes verification against that key at any time up to and
/// including its expiration.
pub proof fn lemma_signed_element_verifies(e: Trust, issuer: Seq<u8>, time: u64)
    requires
        e@.signed_by(issuer),
        time <= e.expires_at,
    ensures
        verify_outcome(e@, issuer, time) == Ok::<(), VerificationError>(()),
{
}

/// The signed message determines every signed field: two elements whose
/// messages are equal have the same subject key, expiration and issued-at time.
pub proof fn lemma_message_binds_signed_fields(a: Trust, b: Trust)
    requires
        a.pk@.len() == PUBLIC_KEY_LEN,
        b.pk@.len() == PUBLIC_KEY_LEN,
        a@.message() == b@.message(),
    ensures
        a.pk@ == b.pk@,
        a.expires_at == b.expires_at,
        a.issued_at == b.issued_at,
{
    lemma_auto_spec_u64_to_from_le_bytes();
    let ma = a@.message();
    let mb = b@.message();
    assert(ma.subrange(0, 32) =~= a.pk@);
    assert(mb.subrange(0, 32) =~= b.pk@);
    assert(ma.subrange(32, 40) =~= spec_u64_to_le_bytes(a.expires_at));
    assert(mb.subrange(32, 40) =~= spec_u64_to_le_bytes(b.expires_at));
    assert(ma.subrange(40, 48) =~= spec_u64_to_le_bytes(a.issued_at));
    assert(mb.subrange(40, 48) =~= spec_u64_to_le_bytes(b.issued_at));
}

/// An element signed by the issuer, then changed in a signed field while its
/// signature is kept, is checked against a message other than the one that
/// was signed: it verifies only if that one signature also covers the new
/// message under the issuer's key, and is otherwise `Forged` or `Expired`.
pub proof fn lemma_tampered_element(orig: Trust, tampered: Trust, issuer: Seq<u8>, time: u64)
    requires
        orig.pk@.len() == PUBLIC_KEY_LEN,
        tampered.pk@.len() == PUBLIC_KEY_LEN,
        tampered.signature@ == orig.signature@,
        orig.pk@ != tampered.pk@ || orig.expires_at != tampered.expires_at || orig.issued_at
            != tampered.issued_at,
    ensures
        tampered@.message() != orig@.message(),
        verify_outcome(tampered@, issuer, time) is Ok ==> signature_accepted(
            issuer,
            tampered@.message(),
            orig.signature@,
        ),
        !signature_accepted(issuer, tampered@.message(), orig.signature@) ==> verify_outcome(
            tampered@,
            issuer,
            time,
        ) is Err,
{
    if tampered@.message() == orig@.message() {
        lemma_message_binds_signed_fields(orig, tampered);
    }
}

} // verus!
