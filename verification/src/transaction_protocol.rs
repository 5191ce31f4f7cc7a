//! What the parties of a transaction sign: the challenge of the kernel's
//! excess signature.

use crate::primitives::blake256;
use crate::primitives::blake256_digest;
use crate::types::MessageHash;
use crate::types::PublicKey;
use vstd::bytes::spec_u64_to_le_bytes;
use vstd::bytes::u64_to_le_bytes;
use vstd::prelude::*;

verus! {

/// The cleartext of a transaction that its signature covers.
#[derive(Clone, Copy, Debug, PartialEq, Eq, Structural)]
pub struct TransactionMetadata {
    /// The absolute fee of the transaction.
    pub fee: u64,
    /// The earliest block height at which the transaction can be mined.
    pub lock_height: u64,
}

/// The bytes that are hashed into a challenge: the public nonce, then the fee
/// and the lock height, each in eight little-endian bytes.
pub open spec fn challenge_message(public_nonce: Seq<u8>, fee: u64, lock_height: u64) -> Seq<u8> {
    public_nonce + spec_u64_to_le_bytes(fee) + spec_u64_to_le_bytes(lock_height)
}

/// The challenge of a signature with the given public nonce over the given
/// fee and lock height.
pub open spec fn challenge(public_nonce: Seq<u8>, fee: u64, lock_height: u64) -> Seq<u8> {
    blake256(challenge_message(public_nonce, fee, lock_height))
}

/// The challenge for the Schnorr signature of a kernel: the hash of the sum of
/// the public nonces and the metadata.
pub fn build_challenge(sum_public_nonces: &PublicKey, metadata: &TransactionMetadata) -> (e:
    MessageHash)
    ensures
        e@ == challenge(sum_public_nonces@, metadata.fee, metadata.lock_height),
        e@.len() == 32,
{
    let mut message: Vec<u8> = Vec::new();
    message.extend_from_slice(sum_public_nonces.as_bytes().as_slice());
    let fee = u64_to_le_bytes(metadata.fee);
    message.extend_from_slice(fee.as_slice());
    let lock_height = u64_to_le_bytes(metadata.lock_height);
    message.extend_from_slice(lock_height.as_slice());
    assert(message@ =~= challenge_message(
        sum_public_nonces@,
        metadata.fee,
        metadata.lock_height,
    ));
    blake256_digest(message.as_slice())
}

} // verus!
