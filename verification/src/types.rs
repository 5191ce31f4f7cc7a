//! The cryptographic values of the base layer, held as their canonical
//! 32-byte encodings: secret keys, public keys, commitments, signatures and the
//! range-proof service.
//!
//! A value's view is its encoding, and every contract speaks of encodings. A
//! public key or a commitment always holds the encoding of a point of the
//! group: its constructors see to that, and the type keeps it.

use crate::primitives::commit_value;
use crate::primitives::construct_range_proof;
use crate::primitives::default_scalar;
use crate::primitives::identity_point;
use crate::primitives::is_point_encoding;
use crate::primitives::is_proof_range;
use crate::primitives::is_proving_range;
use crate::primitives::new_range_proof_service;
use crate::primitives::opens_value;
use crate::primitives::pedersen_commitment;
use crate::primitives::point_add;
use crate::primitives::point_decodes;
use crate::primitives::point_difference;
use crate::primitives::point_sub;
use crate::primitives::point_sum;
use crate::primitives::proof_length;
use crate::primitives::public_key_from_secret;
use crate::primitives::public_key_of;
use crate::primitives::reduce_scalar;
use crate::primitives::reduced_scalar;
pub use crate::primitives::RangeProofService;
use crate::primitives::schnorr_verifies;
use crate::primitives::schnorr_verify;
use crate::primitives::verify_range_proof;
use crate::primitives::zero_scalar;
use vstd::prelude::*;

verus! {

/// The output of the hash that builds a signature challenge.
pub type MessageHash = Vec<u8>;

/// A range proof, as the bytes the prover serialised.
pub type RangeProof = Vec<u8>;

/// A blinding factor is a secret key.
pub type BlindingFactor = SecretKey;

//----------------------------------------------- Secret keys ---------------------------------------------------//

/// A scalar of the Ristretto group in its 32 little-endian bytes. A key
/// always holds the encoding of a scalar below the group order: bytes that
/// are handed in are read modulo the group order, and the key keeps what they
/// were read as.
pub struct SecretKey {
    bytes: [u8; 32],
}

impl View for SecretKey {
    type V = Seq<u8>;

    closed spec fn view(&self) -> Seq<u8> {
        self.bytes@
    }
}

impl SecretKey {
    #[verifier::type_invariant]
    spec fn holds_a_scalar(self) -> bool {
        reduced_scalar(self.bytes@) == self.bytes@
    }

    /// The key that the given bytes are read as: the bytes as a number,
    /// reduced modulo the group order.
    pub fn from_bytes(bytes: [u8; 32]) -> (key: SecretKey)
        ensures
            key@ == reduced_scalar(bytes@),
            reduced_scalar(key@) == key@,
    {
        SecretKey { bytes: reduce_scalar(&bytes) }
    }

    /// The key's encoding, which is read as the key again.
    pub fn as_bytes(&self) -> (bytes: &[u8; 32])
        ensures
            bytes@ == self@,
            reduced_scalar(bytes@) == bytes@,
    {
        proof {
            use_type_invariant(self);
        }
        &self.bytes
    }
}

impl Default for SecretKey {
    /// The scalar zero.
    fn default() -> (key: SecretKey)
        ensures
            key@ == zero_scalar(),
    {
        SecretKey { bytes: default_scalar() }
    }
}

impl Clone for SecretKey {
    fn clone(&self) -> (key: SecretKey)
        ensures
            key == *self,
    {
        proof {
            use_type_invariant(self);
        }
        SecretKey { bytes: self.bytes }
    }
}

//----------------------------------------------- Public keys ---------------------------------------------------//

/// A point of the Ristretto group in its canonical 32-byte encoding.
#[derive(Clone, Copy, Debug, Hash)]
pub struct PublicKey {
    bytes: [u8; 32],
}

impl View for PublicKey {
    type V = Seq<u8>;

    closed spec fn view(&self) -> Seq<u8> {
        self.bytes@
    }
}

impl PublicKey {
    #[verifier::type_invariant]
    spec fn holds_a_point(self) -> bool {
        is_point_encoding(self.bytes@)
    }

    /// The public key with the given encoding, where the bytes encode a point.
    pub fn from_bytes(bytes: [u8; 32]) -> (key: Option<PublicKey>)
        ensures
            key is Some <==> is_point_encoding(bytes@),
            key matches Some(k) ==> k@ == bytes@,
    {
        if point_decodes(&bytes) {
            Some(PublicKey { bytes })
        } else {
            None
        }
    }

    /// The key's encoding.
    pub fn as_bytes(&self) -> (bytes: &[u8; 32])
        ensures
            bytes@ == self@,
            is_point_encoding(bytes@),
    {
        proof {
            use_type_invariant(self);
        }
        &self.bytes
    }

    /// The public key `k.G` of the secret key `k`.
    pub fn from_secret_key(k: &SecretKey) -> (key: PublicKey)
        ensures
            key@ == public_key_of(k@),
    {
        PublicKey { bytes: public_key_from_secret(&k.bytes) }
    }
}

//----------------------------------------------- Commitments ---------------------------------------------------//

/// A Pedersen commitment: a point of the group in its canonical encoding.
#[derive(Clone, Copy, Debug, Hash)]
pub struct Commitment {
    bytes: [u8; 32],
}

impl View for Commitment {
    type V = Seq<u8>;

    closed spec fn view(&self) -> Seq<u8> {
        self.bytes@
    }
}

impl Commitment {
    #[verifier::type_invariant]
    spec fn holds_a_point(self) -> bool {
        is_point_encoding(self.bytes@)
    }

    /// The commitment with the given encoding, where the bytes encode a point.
    pub fn from_bytes(bytes: [u8; 32]) -> (commitment: Option<Commitment>)
        ensures
            commitment is Some <==> is_point_encoding(bytes@),
            commitment matches Some(c) ==> c@ == bytes@,
    {
        if point_decodes(&bytes) {
            Some(Commitment { bytes })
        } else {
            None
        }
    }

    /// The commitment's encoding.
    pub fn as_bytes(&self) -> (bytes: &[u8; 32])
        ensures
            bytes@ == self@,
            is_point_encoding(bytes@),
    {
        proof {
            use_type_invariant(self);
        }
        &self.bytes
    }

    /// The commitment read as a public key: the same point.
    pub fn as_public_key(&self) -> (key: PublicKey)
        ensures
            key@ == self@,
    {
        proof {
            use_type_invariant(self);
        }
        PublicKey { bytes: self.bytes }
    }

    /// The public key read as a commitment: the same point.
    pub fn from_public_key(p: &PublicKey) -> (commitment: Commitment)
        ensures
            commitment@ == p@,
    {
        proof {
            use_type_invariant(p);
        }
        Commitment { bytes: p.bytes }
    }

    /// The sum of two commitments in the group.
    pub fn add(&self, rhs: &Commitment) -> (sum: Commitment)
        ensures
            sum@ == point_sum(self@, rhs@),
    {
        proof {
            use_type_invariant(self);
            use_type_invariant(rhs);
        }
        Commitment { bytes: point_add(&self.bytes, &rhs.bytes) }
    }

    /// This commitment minus `rhs` in the group.
    pub fn sub(&self, rhs: &Commitment) -> (difference: Commitment)
        ensures
            difference@ == point_difference(self@, rhs@),
    {
        proof {
            use_type_invariant(self);
            use_type_invariant(rhs);
        }
        Commitment { bytes: point_sub(&self.bytes, &rhs.bytes) }
    }

    /// Whether the blinding factor `k` and the value `v` open this
    /// commitment: whether committing to them gives this commitment.
    pub fn open(&self, k: &BlindingFactor, v: u64) -> (opened: bool)
        ensures
            opened == (pedersen_commitment(k@, v) == self@),
    {
        proof {
            use_type_invariant(self);
        }
        opens_value(&k.bytes, v, &self.bytes)
    }
}

//----------------------------------------------- Signatures ----------------------------------------------------//

/// A Schnorr signature `(R, s)`: the public nonce and the signature scalar.
pub struct Signature {
    public_nonce: PublicKey,
    signature: SecretKey,
}

/// What a signature is in contracts: the encodings of its two parts.
pub struct SignatureView {
    pub public_nonce: Seq<u8>,
    pub signature: Seq<u8>,
}

impl View for Signature {
    type V = SignatureView;

    closed spec fn view(&self) -> SignatureView {
        SignatureView { public_nonce: self.public_nonce@, signature: self.signature@ }
    }
}

impl Signature {
    /// The signature made of the two given parts.
    pub fn new(public_nonce: PublicKey, signature: SecretKey) -> (sig: Signature)
        ensures
            sig@.public_nonce == public_nonce@,
            sig@.signature == signature@,
    {
        Signature { public_nonce, signature }
    }

    /// The public nonce `R`.
    pub fn get_public_nonce(&self) -> (nonce: &PublicKey)
        ensures
            nonce@ == self@.public_nonce,
    {
        &self.public_nonce
    }

    /// The signature scalar `s`.
    pub fn get_signature(&self) -> (s: &SecretKey)
        ensures
            s@ == self@.signature,
    {
        &self.signature
    }

    /// Whether this signature is valid for the public key and the challenge.
    pub fn verify_challenge(&self, public_key: &PublicKey, challenge: &[u8]) -> (ok: bool)
        ensures
            ok == schnorr_verifies(
                self@.public_nonce,
                self@.signature,
                public_key@,
                challenge@,
            ),
    {
        schnorr_verify(
            self.public_nonce.as_bytes(),
            self.signature.as_bytes(),
            public_key.as_bytes(),
            challenge,
        )
    }
}

impl Clone for Signature {
    fn clone(&self) -> (sig: Signature)
        ensures
            sig == *self,
    {
        Signature { public_nonce: self.public_nonce, signature: self.signature.clone() }
    }
}

//------------------------------------------- The commitment factory --------------------------------------------//

/// The commitment scheme on the default generators `G` and `H`.
pub struct CommitmentFactory {}

/// The identity of the group: the commitment to zero under a zero blinding
/// factor.
pub open spec fn zero_commitment() -> Seq<u8> {
    pedersen_commitment(zero_scalar(), 0)
}

impl CommitmentFactory {
    /// The commitment `k.G + v.H` to the value `v` under the blinding factor `k`.
    pub fn create(k: &BlindingFactor, v: u64) -> (commitment: Commitment)
        ensures
            commitment@ == pedersen_commitment(k@, v),
    {
        Commitment { bytes: commit_value(&k.bytes, v) }
    }

    /// The identity of the group, from which every sum of commitments starts.
    pub fn zero() -> (commitment: Commitment)
        ensures
            commitment@ == zero_commitment(),
    {
        Commitment { bytes: identity_point() }
    }

    /// The public key read as a commitment: the same point.
    pub fn from_public_key(p: &PublicKey) -> (commitment: Commitment)
        ensures
            commitment@ == p@,
    {
        Commitment::from_public_key(p)
    }
}

impl Default for CommitmentFactory {
    fn default() -> CommitmentFactory {
        CommitmentFactory {  }
    }
}

/// Commits to a value directly.
pub trait TariCommitment {
    /// The commitment to `value` under `spending_key`.
    fn commit(value: u64, spending_key: &SecretKey) -> (commitment: Commitment)
        ensures
            commitment@ == pedersen_commitment(spending_key@, value),
    ;
}

impl TariCommitment for CommitmentFactory {
    fn commit(value: u64, spending_key: &SecretKey) -> (commitment: Commitment) {
        CommitmentFactory::create(spending_key, value)
    }
}

/// Checks a commitment against a value and a key directly.
pub trait TariCommitmentValidate {
    /// The encoding of the commitment that is checked.
    spec fn encoding(&self) -> Seq<u8>;

    /// Whether `value` and `spending_key` open the commitment.
    fn validate(&self, value: u64, spending_key: &SecretKey) -> (valid: bool)
        ensures
            valid == (pedersen_commitment(spending_key@, value) == self.encoding()),
    ;
}

impl TariCommitmentValidate for Commitment {
    open spec fn encoding(&self) -> Seq<u8> {
        self@
    }

    fn validate(&self, value: u64, spending_key: &SecretKey) -> (valid: bool) {
        self.open(spending_key, value)
    }
}

//------------------------------------------ The range-proof service --------------------------------------------//

impl RangeProofService {
    /// A service of the given width. The width must be among those the
    /// primitive takes, or the primitive's error comes back.
    pub fn new(range: usize, base: &CommitmentFactory) -> (made: Result<
        RangeProofService,
        tari_crypto::errors::RangeProofError,
    >)
        ensures
            made is Ok <==> is_proof_range(range),
            made matches Ok(s) ==> s.width() == range,
    {
        new_range_proof_service(range)
    }

    /// A proof that `value` lies in the service's range, for the commitment
    /// to `value` under `key`. The prover is randomised and does not look at
    /// the value's size: a proof for a value out of range is made too, and
    /// fails to verify.
    ///
    /// A proof is made only at a width of 8, 16, 32 or 64 bits: a service of
    /// another width gives the primitive's error. A proof that is made has the
    /// length of a proof of the service's width.
    pub fn construct_proof(&self, key: &SecretKey, value: u64) -> (made: Result<
        RangeProof,
        tari_crypto::errors::RangeProofError,
    >)
        ensures
            made matches Ok(p) ==> is_proving_range(self.width()) && p@.len() == proof_length(
                self.width(),
            ),
    {
        construct_range_proof(self, &key.bytes, value)
    }

    /// The verifier's answer for the proof and the commitment. The answer is
    /// no for a service of another width than 8, 16, 32 or 64 bits, and for a
    /// proof that has not the length of a proof of the service's width; else
    /// the verifier decides.
    pub fn verify(&self, proof: &RangeProof, commitment: &Commitment) -> (ok: bool)
        ensures
            ok ==> is_proving_range(self.width()) && proof@.len() == proof_length(self.width()),
    {
        verify_range_proof(self, proof, commitment.as_bytes())
    }
}

impl PartialEq for Commitment {
    fn eq(&self, other: &Commitment) -> (same: bool) {
        bytes_equal(&self.bytes, &other.bytes)
    }
}

impl Eq for Commitment {

}

impl vstd::std_specs::cmp::PartialEqSpecImpl for Commitment {
    open spec fn obeys_eq_spec() -> bool {
        true
    }

    /// Two commitments are equal where their encodings agree byte for byte.
    open spec fn eq_spec(&self, other: &Commitment) -> bool {
        self@ == other@
    }
}

impl PartialEq for PublicKey {
    fn eq(&self, other: &PublicKey) -> (same: bool) {
        bytes_equal(&self.bytes, &other.bytes)
    }
}

impl Eq for PublicKey {

}

impl vstd::std_specs::cmp::PartialEqSpecImpl for PublicKey {
    open spec fn obeys_eq_spec() -> bool {
        true
    }

    /// Two public keys are equal where their encodings agree byte for byte.
    open spec fn eq_spec(&self, other: &PublicKey) -> bool {
        self@ == other@
    }
}

impl PartialEq for Signature {
    fn eq(&self, other: &Signature) -> (same: bool) {
        self.public_nonce == other.public_nonce && bytes_equal(
            &self.signature.bytes,
            &other.signature.bytes,
        )
    }
}

impl Eq for Signature {

}

impl vstd::std_specs::cmp::PartialEqSpecImpl for Signature {
    open spec fn obeys_eq_spec() -> bool {
        true
    }

    /// Two signatures are equal where both of their parts are.
    open spec fn eq_spec(&self, other: &Signature) -> bool {
        self@ == other@
    }
}

/// Whether two byte strings are the same.
pub fn slices_equal(a: &[u8], b: &[u8]) -> (same: bool)
    ensures
        same == (a@ == b@),
{
    if a.len() != b.len() {
        return false;
    }
    let mut i: usize = 0;
    while i < a.len()
        invariant
            i <= a.len(),
            a.len() == b.len(),
            forall|j: int| 0 <= j < i ==> a@[j] == b@[j],
        decreases a.len() - i,
    {
        if a[i] != b[i] {
            return false;
        }
        i += 1;
    }
    assert(a@ =~= b@);
    true
}

/// Whether two encodings agree byte for byte.
pub fn bytes_equal(a: &[u8; 32], b: &[u8; 32]) -> (same: bool)
    ensures
        same == (a@ == b@),
{
    slices_equal(a.as_slice(), b.as_slice())
}

} // verus!
