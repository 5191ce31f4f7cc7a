//! The boundary to `tari_crypto`: Ristretto points and scalars, Pedersen
//! commitments, Schnorr signatures, Bulletproof range proofs and the Blake2b
//! 256-bit digest.
//!
//! Nothing in this module is proved, but that a range-proof service gives
//! back its width. Every other function here hands 32-byte encodings to
//! `tari_crypto` and hands encodings back; its contract is what the rest of
//! the crate takes on trust. The spec functions without a body are
//! names for what the outside functions compute: Verus knows of them only
//! that equal arguments give equal results.

use digest::Digest;
use tari_crypto::commitment::HomomorphicCommitmentFactory;
use tari_crypto::hash::blake2::Blake256;
use tari_crypto::keys::PublicKey;
use tari_crypto::range_proof::RangeProofService as RangeProofServiceTrait;
use tari_crypto::ristretto::pedersen::commitment_factory::PedersenCommitmentFactory;
use tari_crypto::ristretto::pedersen::PedersenCommitment;
use tari_crypto::ristretto::DalekRangeProofService;
use tari_crypto::ristretto::RistrettoPublicKey;
use tari_crypto::ristretto::RistrettoSchnorr;
use tari_crypto::ristretto::RistrettoSecretKey;
use tari_crypto::tari_utilities::ByteArray;
use vstd::prelude::*;

verus! {

/// Whether `RistrettoPublicKey::from_bytes` accepts `bytes`: they are 32 bytes
/// long and the canonical encoding of a point of the group.
pub uninterp spec fn is_point_encoding(bytes: Seq<u8>) -> bool;

/// The encoding of the scalar that `RistrettoSecretKey::from_bytes` reads out
/// of 32 bytes: the bytes as a little-endian integer, reduced modulo the group
/// order.
pub uninterp spec fn reduced_scalar(bytes: Seq<u8>) -> Seq<u8>;

/// The encoding of the Pedersen commitment `key.G + value.H` on the default
/// generators, as `PedersenCommitmentFactory::commit_value` computes it. The
/// key is read as a little-endian integer modulo the group order.
pub uninterp spec fn pedersen_commitment(key: Seq<u8>, value: u64) -> Seq<u8>;

/// The encoding of the sum of the two encoded points.
pub uninterp spec fn point_sum(a: Seq<u8>, b: Seq<u8>) -> Seq<u8>;

/// The encoding of the first encoded point minus the second.
pub uninterp spec fn point_difference(a: Seq<u8>, b: Seq<u8>) -> Seq<u8>;

/// The encoding of `key.G`, the public key of a secret key.
pub uninterp spec fn public_key_of(key: Seq<u8>) -> Seq<u8>;

/// Whether the Schnorr signature `(public_nonce, signature)` satisfies
/// `signature.G == public_nonce + e.public_key`, where `e` is `challenge` read
/// as a scalar; false when `challenge` is no scalar.
pub uninterp spec fn schnorr_verifies(
    public_nonce: Seq<u8>,
    signature: Seq<u8>,
    public_key: Seq<u8>,
    challenge: Seq<u8>,
) -> bool;

/// The Blake2b digest of `data`, 256 bits wide, without key, salt or persona.
pub uninterp spec fn blake256(data: Seq<u8>) -> Seq<u8>;

/// The encoding of the scalar zero, which is also the default secret key.
pub open spec fn zero_scalar() -> Seq<u8> {
    Seq::new(32, |i: int| 0u8)
}

/// The widths a range-proof service can be made with: a non-zero number
/// whose bits all lie among those of 8, 16, 32 and 64.
pub open spec fn is_proof_range(range: usize) -> bool {
    range != 0 && (range | 0x78) == 0x78
}

#[verifier::external_type_specification]
#[verifier::external_body]
pub struct ExDalekRangeProofService(DalekRangeProofService);

#[verifier::external_type_specification]
#[verifier::external_body]
pub struct ExRangeProofError(tari_crypto::errors::RangeProofError);

/// `clone` of the primitive's error, so that an error that carries one can be
/// cloned. Nothing is claimed of the copy.
pub assume_specification[ <tari_crypto::errors::RangeProofError as Clone>::clone ](
    e: &tari_crypto::errors::RangeProofError,
) -> tari_crypto::errors::RangeProofError
;

/// `RistrettoSecretKey::from_bytes` and then `as_bytes`: the scalar that the
/// bytes are read as. The contract names its encoding and claims that the
/// encoding of a scalar is read as that scalar again.
#[verifier::external_body]
pub(crate) fn reduce_scalar(bytes: &[u8; 32]) -> (scalar: [u8; 32])
    ensures
        scalar@ == reduced_scalar(bytes@),
        reduced_scalar(scalar@) == scalar@,
{
    RistrettoSecretKey::from_bytes(bytes).unwrap().as_bytes().try_into().unwrap()
}

/// `RistrettoSecretKey::default`, the scalar zero. The contract claims that
/// its encoding is 32 zero bytes, and that these are read as zero again.
#[verifier::external_body]
pub(crate) fn default_scalar() -> (scalar: [u8; 32])
    ensures
        scalar@ == zero_scalar(),
        reduced_scalar(scalar@) == scalar@,
{
    RistrettoSecretKey::default().as_bytes().try_into().unwrap()
}

/// `RistrettoPublicKey::from_bytes`, asked only whether it succeeds. The
/// contract gives that answer its name.
#[verifier::external_body]
pub(crate) fn point_decodes(bytes: &[u8; 32]) -> (ok: bool)
    ensures
        ok == is_point_encoding(bytes@),
{
    RistrettoPublicKey::from_bytes(bytes).is_ok()
}

/// `PedersenCommitmentFactory::commit_value` on the default generators. The
/// contract names the encoding of the commitment and claims that it decodes
/// again, as the encoding of every point does.
#[verifier::external_body]
pub(crate) fn commit_value(key: &[u8; 32], value: u64) -> (commitment: [u8; 32])
    ensures
        commitment@ == pedersen_commitment(key@, value),
        is_point_encoding(commitment@),
{
    let k = RistrettoSecretKey::from_bytes(key).unwrap();
    let c = PedersenCommitmentFactory::default().commit_value(&k, value);
    c.as_bytes().try_into().unwrap()
}

/// `PedersenCommitmentFactory::open_value` on the default generators, which
/// commits to the key and the value and compares the result with the given
/// commitment. The contract claims that comparison, over the encodings.
#[verifier::external_body]
pub(crate) fn opens_value(key: &[u8; 32], value: u64, commitment: &[u8; 32]) -> (ok: bool)
    requires
        is_point_encoding(commitment@),
    ensures
        ok == (pedersen_commitment(key@, value) == commitment@),
{
    let k = RistrettoSecretKey::from_bytes(key).unwrap();
    let c = PedersenCommitment::from_bytes(commitment).unwrap();
    PedersenCommitmentFactory::default().open_value(&k, value, &c)
}

/// `PedersenCommitmentFactory::zero`, the identity of the group, which its
/// documentation gives as the commitment to zero under a zero blinding
/// factor. The contract claims that, and that the encoding decodes again.
#[verifier::external_body]
pub(crate) fn identity_point() -> (point: [u8; 32])
    ensures
        point@ == pedersen_commitment(zero_scalar(), 0),
        is_point_encoding(point@),
{
    PedersenCommitmentFactory::default().zero().as_bytes().try_into().unwrap()
}

/// `+` on two `PedersenCommitment`s. The contract names the encoding of the
/// sum and claims that it decodes again.
#[verifier::external_body]
pub(crate) fn point_add(a: &[u8; 32], b: &[u8; 32]) -> (sum: [u8; 32])
    requires
        is_point_encoding(a@),
        is_point_encoding(b@),
    ensures
        sum@ == point_sum(a@, b@),
        is_point_encoding(sum@),
{
    let x = PedersenCommitment::from_bytes(a).unwrap();
    let y = PedersenCommitment::from_bytes(b).unwrap();
    (&x + &y).as_bytes().try_into().unwrap()
}

/// `-` on two `PedersenCommitment`s. The contract names the encoding of the
/// difference and claims that it decodes again.
#[verifier::external_body]
pub(crate) fn point_sub(a: &[u8; 32], b: &[u8; 32]) -> (difference: [u8; 32])
    requires
        is_point_encoding(a@),
        is_point_encoding(b@),
    ensures
        difference@ == point_difference(a@, b@),
        is_point_encoding(difference@),
{
    let x = PedersenCommitment::from_bytes(a).unwrap();
    let y = PedersenCommitment::from_bytes(b).unwrap();
    (&x - &y).as_bytes().try_into().unwrap()
}

/// `RistrettoPublicKey::from_secret_key`. The contract names the encoding of
/// the public key and claims that it decodes again.
#[verifier::external_body]
pub(crate) fn public_key_from_secret(key: &[u8; 32]) -> (public_key: [u8; 32])
    ensures
        public_key@ == public_key_of(key@),
        is_point_encoding(public_key@),
{
    let k = RistrettoSecretKey::from_bytes(key).unwrap();
    RistrettoPublicKey::from_secret_key(&k).as_bytes().try_into().unwrap()
}

/// `RistrettoSchnorr::verify_challenge` on the signature made of the two
/// given parts. The contract gives its answer a name.
#[verifier::external_body]
pub(crate) fn schnorr_verify(
    public_nonce: &[u8; 32],
    signature: &[u8; 32],
    public_key: &[u8; 32],
    challenge: &[u8],
) -> (ok: bool)
    requires
        is_point_encoding(public_nonce@),
        is_point_encoding(public_key@),
    ensures
        ok == schnorr_verifies(public_nonce@, signature@, public_key@, challenge@),
{
    let r = RistrettoPublicKey::from_bytes(public_nonce).unwrap();
    let s = RistrettoSecretKey::from_bytes(signature).unwrap();
    let p = RistrettoPublicKey::from_bytes(public_key).unwrap();
    RistrettoSchnorr::new(r, s).verify_challenge(&p, challenge)
}

/// `Blake256`, fed `data` and finalised. The contract names the digest and
/// claims its length, which the hasher's output size fixes at 32 bytes.
#[verifier::external_body]
pub(crate) fn blake256_digest(data: &[u8]) -> (digest: Vec<u8>)
    ensures
        digest@ == blake256(data@),
        digest@.len() == 32,
{
    Blake256::new().chain(data).finalize().to_vec()
}

/// A prover and verifier of range proofs of one width on the default
/// generators: its proofs show that a committed value lies in `[0, 2^range)`.
///
/// The service of `tari_crypto` is kept beside the width it was made with.
/// Only `new_range_proof_service` puts the two together, so the width is
/// always that of the service.
pub struct RangeProofService {
    service: DalekRangeProofService,
    range: usize,
}

impl RangeProofService {
    /// The width the service was made with, in bits.
    pub closed spec fn width(&self) -> usize {
        self.range
    }

    /// The width the service was made with, in bits.
    pub fn range(&self) -> (range: usize)
        ensures
            range == self.width(),
    {
        self.range
    }
}

/// The widths at which proofs are made and verified: 8, 16, 32 and 64 bits.
/// A service can be made with other widths too, but it makes no proof and
/// verifies none.
pub open spec fn is_proving_range(range: usize) -> bool {
    range == 8 || range == 16 || range == 32 || range == 64
}

/// The length of a proof of the given width in bytes: `2 lg(range) + 9`
/// points and scalars of 32 bytes each.
pub open spec fn proof_length(range: usize) -> nat {
    if range == 8 {
        480
    } else if range == 16 {
        544
    } else if range == 32 {
        608
    } else {
        672
    }
}

/// `DalekRangeProofService::new` on the default generators. The contract
/// claims that it succeeds on exactly the widths that its mask lets through,
/// and that the service is kept with the width that was handed to `new`.
#[verifier::external_body]
pub(crate) fn new_range_proof_service(range: usize) -> (made: Result<
    RangeProofService,
    tari_crypto::errors::RangeProofError,
>)
    ensures
        made is Ok <==> is_proof_range(range),
        made matches Ok(s) ==> s.width() == range,
{
    let service = DalekRangeProofService::new(range, &PedersenCommitmentFactory::default())?;
    Ok(RangeProofService { service, range })
}

/// `DalekRangeProofService::construct_proof`. The prover draws random
/// blinding values, so the proof itself is not claimed, nor that one is made.
/// What is claimed is what the prover does whatever it draws: it turns down
/// every width but 8, 16, 32 and 64 before it begins, and the proof it
/// serialises has `2 lg(range) + 9` elements of 32 bytes.
#[verifier::external_body]
pub(crate) fn construct_range_proof(service: &RangeProofService, key: &[u8; 32], value: u64) -> (made:
    Result<Vec<u8>, tari_crypto::errors::RangeProofError>)
    ensures
        made matches Ok(p) ==> is_proving_range(service.width()) && p@.len() == proof_length(
            service.width(),
        ),
{
    let k = RistrettoSecretKey::from_bytes(key).unwrap();
    service.service.construct_proof(&k, value)
}

/// `DalekRangeProofService::verify`. The verifier batches its equations
/// under a random weight, so its answer is not claimed. What is claimed is
/// what it checks before it draws: it turns down every width but 8, 16, 32
/// and 64, and every proof whose length is not that of a proof of its width.
#[verifier::external_body]
pub(crate) fn verify_range_proof(
    service: &RangeProofService,
    proof: &Vec<u8>,
    commitment: &[u8; 32],
) -> (ok: bool)
    requires
        is_point_encoding(commitment@),
    ensures
        ok ==> is_proving_range(service.width()) && proof@.len() == proof_length(service.width()),
{
    let c = PedersenCommitment::from_bytes(commitment).unwrap();
    service.service.verify(proof, &c)
}

} // verus!
