use digest::Digest;
use rand::rngs::OsRng;
use tari_core::block::AggregateBody;
use tari_core::transaction::range_proof_verdict;
use tari_core::transaction::KernelBuilder;
use tari_core::transaction::KernelFeatures;
use tari_core::transaction::OutputFeatures;
use tari_core::transaction::Transaction;
use tari_core::transaction::TransactionBuilder;
use tari_core::transaction::TransactionError;
use tari_core::transaction::TransactionInput;
use tari_core::transaction::TransactionKernel;
use tari_core::transaction::TransactionOutput;
use tari_core::transaction::UnblindedOutput;
use tari_core::transaction::MAX_RANGE_PROOF_RANGE;
use tari_core::transaction_protocol::build_challenge;
use tari_core::transaction_protocol::TransactionMetadata;
use tari_core::types::BlindingFactor;
use tari_core::types::CommitmentFactory;
use tari_core::types::PublicKey;
use tari_core::types::RangeProofService;
use tari_core::types::SecretKey;
use tari_core::types::Signature;
use tari_core::types::TariCommitment;
use tari_core::types::TariCommitmentValidate;
use tari_crypto::hash::blake2::Blake256;
use tari_crypto::keys::SecretKey as SecretKeyTrait;
use tari_crypto::ristretto::RistrettoSchnorr;
use tari_crypto::ristretto::RistrettoSecretKey;
use tari_crypto::tari_utilities::ByteArray;

/// The range-proof width of the tests: narrow, so that a value out of range
/// is cheap to come by.
const TEST_RANGE_PROOF_RANGE: usize = 1 << 5;

const BALANCE_MESSAGE: &str = "Sum of inputs and outputs did not equal sum of kernels with fees";

fn key(k: &RistrettoSecretKey) -> SecretKey {
    SecretKey::from_bytes(k.as_bytes().try_into().unwrap())
}

fn random_scalar() -> RistrettoSecretKey {
    RistrettoSecretKey::random(&mut OsRng)
}

fn random_key() -> BlindingFactor {
    key(&random_scalar())
}

fn small_key(n: u8) -> SecretKey {
    let mut bytes = [0u8; 32];
    bytes[0] = n;
    SecretKey::from_bytes(bytes)
}

/// Signs the fee and the lock height with the secret excess `x`.
fn sign(x: &RistrettoSecretKey, fee: u64, lock_height: u64) -> Signature {
    let r = random_scalar();
    let public_nonce = PublicKey::from_secret_key(&key(&r));
    let e = build_challenge(&public_nonce, &TransactionMetadata { fee, lock_height });
    let sig = RistrettoSchnorr::sign_raw(x, r, &e).unwrap();
    Signature::new(
        PublicKey::from_bytes(sig.get_public_nonce().as_bytes().try_into().unwrap()).unwrap(),
        key(sig.get_signature()),
    )
}

struct Parts {
    inputs: Vec<TransactionInput>,
    outputs: Vec<TransactionOutput>,
    kernel: TransactionKernel,
    offset: BlindingFactor,
}

/// A transaction that spends 5000 and 3000 to make 6000 and 1900 and pay a
/// fee of 100, with its kernel signed by the true excess.
fn balanced_parts(range: usize) -> Parts {
    let k_in = [random_scalar(), random_scalar()];
    let k_out = [random_scalar(), random_scalar()];
    let offset = random_scalar();
    let fee = 100;
    let lock_height = 7;
    let spent = [
        UnblindedOutput::new(5000, key(&k_in[0]), None),
        UnblindedOutput::new(3000, key(&k_in[1]), Some(OutputFeatures::coinbase_output())),
    ];
    let made = [
        UnblindedOutput::new(6000, key(&k_out[0]), None),
        UnblindedOutput::new(1900, key(&k_out[1]), None),
    ];
    let inputs = spent.iter().map(TransactionInput::from).collect();
    let outputs = made.iter().map(|u| TransactionOutput::try_from(u, range).unwrap()).collect();
    let x = &(&(&k_out[0] + &k_out[1]) - &(&k_in[0] + &k_in[1])) - &offset;
    let excess = CommitmentFactory::from_public_key(&PublicKey::from_secret_key(&key(&x)));
    let kernel = KernelBuilder::new()
        .with_fee(fee)
        .with_lock_height(lock_height)
        .with_excess(&excess)
        .with_signature(&sign(&x, fee, lock_height))
        .build()
        .unwrap();
    Parts { inputs, outputs, kernel, offset: key(&offset) }
}

fn transaction_of(parts: Parts) -> Transaction {
    Transaction::new(parts.inputs, parts.outputs, vec![parts.kernel], parts.offset)
}

fn is_validation_error(r: &Result<(), TransactionError>, message: &str) -> bool {
    matches!(r, Err(TransactionError::ValidationError(m)) if m == message)
}

fn blake256(parts: &[&[u8]]) -> Vec<u8> {
    let mut hasher = Blake256::new();
    for part in parts {
        hasher.update(part);
    }
    hasher.finalize().to_vec()
}

//---------------------------------------- the tests of the entities ----------------------------------------//

#[test]
fn unblinded_input() {
    let k = random_key();
    let i = UnblindedOutput::new(10, k, None);
    let input = TransactionInput::from(&i);
    assert_eq!(input.features, OutputFeatures::empty());
    assert!(input.opened_by(&i));
}

#[test]
fn range_proof_verification() {
    // Directly test the tx_output verification
    let k1 = random_key();
    let k2 = random_key();

    // For testing the max range has been limited to 2^32 so this value is too large.
    let unblinded_output1 = UnblindedOutput::new(2u64.pow(32) - 1u64, k1, None);
    let tx_output1 = TransactionOutput::try_from(&unblinded_output1, TEST_RANGE_PROOF_RANGE).unwrap();
    assert!(tx_output1.verify_range_proof(None, TEST_RANGE_PROOF_RANGE).unwrap());

    let unblinded_output2 = UnblindedOutput::new(2u64.pow(32) + 1u64, k2.clone(), None);
    let tx_output2 = TransactionOutput::try_from(&unblinded_output2, TEST_RANGE_PROOF_RANGE);

    match tx_output2 {
        Ok(_) => panic!("Range proof should have failed to verify"),
        Err(e) => assert_eq!(
            e,
            TransactionError::ValidationError("Range proof could not be verified".to_string())
        ),
    }

    let c = CommitmentFactory::commit(2u64.pow(32) + 1, &k2);
    let prover = RangeProofService::new(TEST_RANGE_PROOF_RANGE, &CommitmentFactory::default()).unwrap();
    let proof = prover.construct_proof(&k2, 2u64.pow(32) + 1).unwrap();

    let tx_output3 = TransactionOutput::new(OutputFeatures::empty(), c, proof);

    assert_eq!(tx_output3.verify_range_proof(Some(&prover), TEST_RANGE_PROOF_RANGE).unwrap(), false);
}

#[test]
fn unblinded_output_keeps_what_it_is_given() {
    let u = UnblindedOutput::new(42, small_key(9), Some(OutputFeatures::coinbase_output()));
    assert_eq!(u.value, 42);
    assert_eq!(u.spending_key.as_bytes(), small_key(9).as_bytes());
    assert_eq!(u.features.bits(), 1);
    let plain = UnblindedOutput::new(42, small_key(9), None);
    assert_eq!(plain.features.bits(), 0);
    let copy = u.clone();
    assert_eq!(copy.value, 42);
    assert_eq!(copy.features, u.features);
}

#[test]
fn output_round_trip_in_range() {
    for value in [0u64, 1, 12345, 2u64.pow(31), 2u64.pow(32) - 1] {
        let u = UnblindedOutput::new(value, random_key(), None);
        let output = TransactionOutput::try_from(&u, TEST_RANGE_PROOF_RANGE).unwrap();
        assert!(output.verify_range_proof(None, TEST_RANGE_PROOF_RANGE).unwrap());
        assert!(output.commitment == CommitmentFactory::create(&u.spending_key, value));
        assert_eq!(output.features, u.features);
        assert_eq!(output.range_proof(), &output.proof);
    }
}

#[test]
fn output_round_trip_at_the_full_width() {
    let u = UnblindedOutput::new(u64::MAX, random_key(), Some(OutputFeatures::coinbase_output()));
    let output = TransactionOutput::try_from(&u, MAX_RANGE_PROOF_RANGE).unwrap();
    assert!(output.verify_range_proof(None, MAX_RANGE_PROOF_RANGE).unwrap());
    assert_eq!(output.features.bits(), 1);
    // A verifier of another width turns the proof down.
    assert_eq!(output.verify_range_proof(None, TEST_RANGE_PROOF_RANGE).unwrap(), false);
}

#[test]
fn output_just_out_of_range_is_refused() {
    let u = UnblindedOutput::new(2u64.pow(32), random_key(), None);
    match TransactionOutput::try_from(&u, TEST_RANGE_PROOF_RANGE) {
        Ok(_) => panic!("a value of 2^32 does not fit 32 bits"),
        Err(e) => assert_eq!(
            e,
            TransactionError::ValidationError("Range proof could not be verified".to_string())
        ),
    }
}

#[test]
fn a_width_the_prover_does_not_take_is_a_range_proof_error() {
    for range in [0usize, 1, 7, 65, 128, 136] {
        let u = UnblindedOutput::new(5, random_key(), None);
        match TransactionOutput::try_from(&u, range) {
            Err(TransactionError::RangeProofError(_)) => {},
            _ => panic!("no range-proof service has {} bits", range),
        }
        assert!(RangeProofService::new(range, &CommitmentFactory::default()).is_err());
        let output = TransactionOutput::default();
        match output.verify_range_proof(None, range) {
            Err(TransactionError::RangeProofError(_)) => {},
            _ => panic!("no range-proof service has {} bits", range),
        }
    }
}

#[test]
fn a_service_is_made_for_every_width_the_mask_lets_through() {
    for range in [8usize, 16, 24, 32, 40, 64, 120] {
        let service = RangeProofService::new(range, &CommitmentFactory::default()).unwrap();
        assert_eq!(service.range(), range);
    }
    // A width that is no power of two is let through, but no proof is made with it.
    let service = RangeProofService::new(24, &CommitmentFactory::default()).unwrap();
    assert!(service.construct_proof(&random_key(), 1).is_err());
    let u = UnblindedOutput::new(1, random_key(), None);
    assert!(matches!(TransactionOutput::try_from(&u, 24), Err(TransactionError::RangeProofError(_))));
}

#[test]
fn from_proof_goes_by_the_verifier() {
    let c = CommitmentFactory::create(&small_key(1), 5);
    let made = TransactionOutput::from_proof(OutputFeatures::empty(), c, vec![1, 2, 3], true).unwrap();
    assert!(made.commitment == c);
    assert_eq!(made.proof, vec![1, 2, 3]);
    match TransactionOutput::from_proof(OutputFeatures::empty(), c, vec![1, 2, 3], false) {
        Ok(_) => panic!("the proof did not verify"),
        Err(e) => assert_eq!(
            e,
            TransactionError::ValidationError("Range proof could not be verified".to_string())
        ),
    }
}

#[test]
fn a_malformed_proof_does_not_verify() {
    let c = CommitmentFactory::create(&random_key(), 5);
    let prover = RangeProofService::new(TEST_RANGE_PROOF_RANGE, &CommitmentFactory::default()).unwrap();
    for proof in [vec![], vec![0u8; 10], vec![255u8; 608]] {
        let output = TransactionOutput::new(OutputFeatures::empty(), c, proof);
        assert_eq!(output.verify_range_proof(Some(&prover), TEST_RANGE_PROOF_RANGE).unwrap(), false);
    }
}

#[test]
fn a_proof_does_not_verify_for_another_commitment() {
    let u = UnblindedOutput::new(77, random_key(), None);
    let output = TransactionOutput::try_from(&u, TEST_RANGE_PROOF_RANGE).unwrap();
    let other = CommitmentFactory::create(&u.spending_key, 78);
    let forged = TransactionOutput::new(OutputFeatures::empty(), other, output.proof.clone());
    assert_eq!(forged.verify_range_proof(None, TEST_RANGE_PROOF_RANGE).unwrap(), false);
}

#[test]
fn input_is_opened_by_its_source_only() {
    let k = random_scalar();
    let u = UnblindedOutput::new(10, key(&k), Some(OutputFeatures::coinbase_output()));
    let input = TransactionInput::from(&u);
    assert_eq!(input.features, OutputFeatures::coinbase_output());
    assert!(input.opened_by(&u));
    assert!(input.commitment() == &CommitmentFactory::create(&key(&k), 10));
    // another value
    assert!(!input.opened_by(&UnblindedOutput::new(11, key(&k), None)));
    // another key
    assert!(!input.opened_by(&UnblindedOutput::new(10, random_key(), None)));
    let next = &k + &RistrettoSecretKey::from(1u64);
    assert!(!input.opened_by(&UnblindedOutput::new(10, key(&next), None)));
    // the features do not matter to the opening
    assert!(input.opened_by(&UnblindedOutput::new(10, key(&k), None)));
}

#[test]
fn commitments_validate_against_value_and_key() {
    let k = random_key();
    let c = CommitmentFactory::commit(500, &k);
    assert!(c.validate(500, &k));
    assert!(!c.validate(501, &k));
    assert!(!c.validate(500, &random_key()));
    assert!(c.open(&k, 500));
    assert!(c == CommitmentFactory::create(&k, 500));
}

#[test]
fn default_output_is_the_placeholder() {
    let output = TransactionOutput::default();
    assert_eq!(output.features, OutputFeatures::empty());
    assert!(output.commitment == CommitmentFactory::zero());
    assert!(output.proof.is_empty());
    assert_eq!(output.commitment.as_bytes(), &[0u8; 32]);
}

#[test]
fn output_clone_is_equal() {
    let u = UnblindedOutput::new(3, random_key(), None);
    let output = TransactionOutput::try_from(&u, TEST_RANGE_PROOF_RANGE).unwrap();
    let copy = output.clone();
    assert!(copy.commitment == output.commitment);
    assert_eq!(copy.proof, output.proof);
    assert_eq!(copy.features, output.features);
}

//---------------------------------------- the canonical hashes ----------------------------------------//

#[test]
fn input_hash_is_the_hash_of_features_and_commitment() {
    let u = UnblindedOutput::new(10, random_key(), Some(OutputFeatures::coinbase_output()));
    let input = TransactionInput::from(&u);
    let expected = blake256(&[&[1u8], input.commitment.as_bytes()]);
    assert_eq!(input.hash(), expected);
    assert_eq!(input.hash().len(), 32);
}

#[test]
fn output_hash_is_the_hash_of_features_commitment_and_proof() {
    let u = UnblindedOutput::new(10, random_key(), None);
    let output = TransactionOutput::try_from(&u, TEST_RANGE_PROOF_RANGE).unwrap();
    let expected = blake256(&[&[0u8], output.commitment.as_bytes(), &output.proof]);
    assert_eq!(output.hash(), expected);
}

#[test]
fn default_output_hash_is_fixed() {
    // Blake2b-256 of one zero byte for the features and 32 zero bytes for the
    // identity point.
    let expected = blake256(&[&[0u8; 33]]);
    assert_eq!(TransactionOutput::default().hash(), expected);
    assert_eq!(
        tari_crypto::tari_utilities::hex::to_hex(&TransactionOutput::default().hash()),
        tari_crypto::tari_utilities::hex::to_hex(&Blake256::digest(&[0u8; 33]))
    );
}

#[test]
fn kernel_hash_is_the_hash_of_its_fields_in_order() {
    let parts = balanced_parts(TEST_RANGE_PROOF_RANGE);
    let kernel = parts.kernel;
    let expected = blake256(&[
        &[kernel.features.bits()],
        &kernel.fee.to_le_bytes(),
        &kernel.lock_height.to_le_bytes(),
        kernel.excess.as_bytes(),
        kernel.excess_sig.get_public_nonce().as_bytes(),
        kernel.excess_sig.get_signature().as_bytes(),
    ]);
    assert_eq!(kernel.hash(), expected);
    assert_eq!(kernel.fee.to_le_bytes(), [100, 0, 0, 0, 0, 0, 0, 0]);
}

#[test]
fn challenge_is_the_hash_of_nonce_fee_and_lock_height() {
    let nonce = PublicKey::from_secret_key(&small_key(3));
    let e = build_challenge(&nonce, &TransactionMetadata { fee: 0x0102, lock_height: 0x0a0b0c });
    let expected = blake256(&[
        nonce.as_bytes(),
        &[2, 1, 0, 0, 0, 0, 0, 0],
        &[0x0c, 0x0b, 0x0a, 0, 0, 0, 0, 0],
    ]);
    assert_eq!(e, expected);
    assert_eq!(e.len(), 32);
    let other = build_challenge(&nonce, &TransactionMetadata { fee: 0x0a0b0c, lock_height: 0x0102 });
    assert_ne!(e, other);
}

#[test]
fn blake256_of_a_known_message() {
    // The digest of "onetwo", through the hash of an input whose features
    // and commitment spell it, cannot be had: a commitment is a point. The
    // challenge serves: its message is the nonce and sixteen bytes.
    let nonce = PublicKey::from_secret_key(&small_key(1));
    let e = build_challenge(&nonce, &TransactionMetadata { fee: 0, lock_height: 0 });
    let mut message = nonce.as_bytes().to_vec();
    message.extend_from_slice(&[0u8; 16]);
    assert_eq!(e, Blake256::digest(&message).to_vec());
}

//---------------------------------------- the kernel ----------------------------------------//

#[test]
fn kernel_builder_needs_excess_and_signature() {
    let excess = CommitmentFactory::create(&random_key(), 0);
    let signature = sign(&random_scalar(), 0, 0);
    assert_eq!(KernelBuilder::new().build().err(), Some(TransactionError::NoSignatureError));
    assert_eq!(
        KernelBuilder::new().with_fee(1).with_lock_height(2).build().err(),
        Some(TransactionError::NoSignatureError)
    );
    assert_eq!(
        KernelBuilder::new().with_excess(&excess).build().err(),
        Some(TransactionError::NoSignatureError)
    );
    assert_eq!(
        KernelBuilder::new().with_signature(&signature).build().err(),
        Some(TransactionError::NoSignatureError)
    );
    assert_eq!(KernelBuilder::default().build().err(), Some(TransactionError::NoSignatureError));
    assert!(KernelBuilder::new().with_signature(&signature).with_excess(&excess).build().is_ok());
}

#[test]
fn kernel_builder_builds_what_was_set() {
    let excess = CommitmentFactory::create(&random_key(), 0);
    let signature = sign(&random_scalar(), 0, 0);
    let kernel = KernelBuilder::new()
        .with_excess(&excess)
        .with_signature(&signature)
        .build()
        .unwrap();
    assert_eq!(kernel.features, KernelFeatures::empty());
    assert_eq!(kernel.fee, 0);
    assert_eq!(kernel.lock_height, 0);
    assert!(kernel.excess == excess);
    assert!(kernel.excess_sig == signature);

    let other = CommitmentFactory::create(&random_key(), 0);
    let kernel = KernelBuilder::new()
        .with_features(KernelFeatures::coinbase_kernel())
        .with_fee(17)
        .with_fee(19)
        .with_lock_height(23)
        .with_excess(&excess)
        .with_excess(&other)
        .with_signature(&signature)
        .build()
        .unwrap();
    assert_eq!(kernel.features, KernelFeatures::coinbase_kernel());
    assert_eq!(kernel.fee, 19);
    assert_eq!(kernel.lock_height, 23);
    assert!(kernel.excess == other);
    assert!(kernel.excess != excess);
    let copy = kernel.clone();
    assert!(copy.excess == kernel.excess && copy.excess_sig == kernel.excess_sig);
    assert_eq!((copy.fee, copy.lock_height, copy.features), (19, 23, kernel.features));
}

#[test]
fn kernel_signature_verifies() {
    let x = random_scalar();
    let excess = CommitmentFactory::from_public_key(&PublicKey::from_secret_key(&key(&x)));
    let kernel = KernelBuilder::new()
        .with_fee(100)
        .with_lock_height(5)
        .with_excess(&excess)
        .with_signature(&sign(&x, 100, 5))
        .build()
        .unwrap();
    assert_eq!(kernel.verify_signature(), Ok(()));
}

#[test]
fn kernel_signature_fails_after_tampering() {
    let x = random_scalar();
    let excess = CommitmentFactory::from_public_key(&PublicKey::from_secret_key(&key(&x)));
    let kernel = KernelBuilder::new()
        .with_fee(100)
        .with_lock_height(5)
        .with_excess(&excess)
        .with_signature(&sign(&x, 100, 5))
        .build()
        .unwrap();

    let mut tampered = kernel.clone();
    tampered.fee = 101;
    assert_eq!(tampered.verify_signature(), Err(TransactionError::InvalidSignatureError));

    let mut tampered = kernel.clone();
    tampered.lock_height = 6;
    assert_eq!(tampered.verify_signature(), Err(TransactionError::InvalidSignatureError));

    // fee and lock height swapped
    let mut tampered = kernel.clone();
    tampered.fee = 5;
    tampered.lock_height = 100;
    assert_eq!(tampered.verify_signature(), Err(TransactionError::InvalidSignatureError));

    // another excess
    let mut tampered = kernel.clone();
    tampered.excess = CommitmentFactory::from_public_key(&PublicKey::from_secret_key(&random_key()));
    assert_eq!(tampered.verify_signature(), Err(TransactionError::InvalidSignatureError));

    // another signer
    let mut tampered = kernel.clone();
    tampered.excess_sig = sign(&random_scalar(), 100, 5);
    assert_eq!(tampered.verify_signature(), Err(TransactionError::InvalidSignatureError));

    // the features are not signed
    let mut changed = kernel.clone();
    changed.features = KernelFeatures::coinbase_kernel();
    assert_eq!(changed.verify_signature(), Ok(()));
    assert_eq!(kernel.verify_signature(), Ok(()));
}

//---------------------------------------- the transaction ----------------------------------------//

#[test]
fn balanced_transaction_validates() {
    let mut tx = transaction_of(balanced_parts(TEST_RANGE_PROOF_RANGE));
    assert_eq!(tx.validate_internal_consistency(None, TEST_RANGE_PROOF_RANGE), Ok(()));
    let prover = RangeProofService::new(TEST_RANGE_PROOF_RANGE, &CommitmentFactory::default()).unwrap();
    assert_eq!(tx.validate_internal_consistency(Some(&prover), TEST_RANGE_PROOF_RANGE), Ok(()));
    // With a service the width that is passed beside it is not used.
    assert_eq!(tx.validate_internal_consistency(Some(&prover), 0), Ok(()));
    assert_eq!(tx.body.verify_kernel_signatures(), Ok(()));
    assert_eq!(tx.validate_kernel_sum(), Ok(()));
    assert_eq!(tx.validate_range_proofs(Some(&prover), TEST_RANGE_PROOF_RANGE), Ok(()));
}

#[test]
fn sums_of_a_balanced_transaction_agree() {
    let tx = transaction_of(balanced_parts(TEST_RANGE_PROOF_RANGE));
    let kernel_sum = tx.sum_kernels().unwrap();
    assert_eq!(kernel_sum.fees, 100);
    assert!(kernel_sum.sum == tx.sum_commitments(100));
    assert!(kernel_sum.sum != tx.sum_commitments(101));
    // The sum of the kernels is the public key of the offset plus the excess.
    let offset = CommitmentFactory::from_public_key(&PublicKey::from_secret_key(&tx.offset));
    assert!(kernel_sum.sum == offset.add(&tx.body.kernels[0].excess));
    // What the commitments come to is the outputs less the inputs plus the fee.
    let inputs = tx.body.inputs[0].commitment.add(&tx.body.inputs[1].commitment);
    let outputs = tx.body.outputs[0].commitment.add(&tx.body.outputs[1].commitment);
    let fee = CommitmentFactory::create(&SecretKey::default(), 100);
    assert!(tx.sum_commitments(100) == outputs.sub(&inputs).add(&fee));
}

#[test]
fn validation_is_idempotent() {
    let mut tx = transaction_of(balanced_parts(TEST_RANGE_PROOF_RANGE));
    let before = (
        tx.offset.as_bytes().clone(),
        tx.body.inputs.iter().map(|i| i.hash()).collect::<Vec<_>>(),
        tx.body.outputs.iter().map(|o| o.hash()).collect::<Vec<_>>(),
        tx.body.kernels.iter().map(|k| k.hash()).collect::<Vec<_>>(),
    );
    for _ in 0..5 {
        assert_eq!(tx.validate_internal_consistency(None, TEST_RANGE_PROOF_RANGE), Ok(()));
        let after = (
            tx.offset.as_bytes().clone(),
            tx.body.inputs.iter().map(|i| i.hash()).collect::<Vec<_>>(),
            tx.body.outputs.iter().map(|o| o.hash()).collect::<Vec<_>>(),
            tx.body.kernels.iter().map(|k| k.hash()).collect::<Vec<_>>(),
        );
        assert_eq!(before, after);
    }
}

#[test]
fn a_failed_validation_fails_again_and_leaves_the_transaction_alone() {
    let mut parts = balanced_parts(TEST_RANGE_PROOF_RANGE);
    parts.inputs.pop();
    let mut tx = transaction_of(parts);
    let hashes: Vec<_> = tx.body.inputs.iter().map(|i| i.hash()).collect();
    for _ in 0..3 {
        let r = tx.validate_internal_consistency(None, TEST_RANGE_PROOF_RANGE);
        assert!(is_validation_error(&r, BALANCE_MESSAGE));
        assert_eq!(hashes, tx.body.inputs.iter().map(|i| i.hash()).collect::<Vec<_>>());
    }
}

#[test]
fn changing_a_commitment_unbalances_the_transaction() {
    let delta = CommitmentFactory::create(&SecretKey::default(), 1);

    // an input
    let mut parts = balanced_parts(TEST_RANGE_PROOF_RANGE);
    parts.inputs[1].commitment = parts.inputs[1].commitment.add(&delta);
    let mut tx = transaction_of(parts);
    let r = tx.validate_internal_consistency(None, TEST_RANGE_PROOF_RANGE);
    assert!(is_validation_error(&r, BALANCE_MESSAGE));
    assert!(is_validation_error(&tx.validate_kernel_sum(), BALANCE_MESSAGE));

    // an output
    let mut parts = balanced_parts(TEST_RANGE_PROOF_RANGE);
    parts.outputs[0].commitment = parts.outputs[0].commitment.sub(&delta);
    let mut tx = transaction_of(parts);
    let r = tx.validate_internal_consistency(None, TEST_RANGE_PROOF_RANGE);
    assert!(is_validation_error(&r, BALANCE_MESSAGE));

    // the offset
    let mut parts = balanced_parts(TEST_RANGE_PROOF_RANGE);
    parts.offset = random_key();
    let mut tx = transaction_of(parts);
    let r = tx.validate_internal_consistency(None, TEST_RANGE_PROOF_RANGE);
    assert!(is_validation_error(&r, BALANCE_MESSAGE));

    // the excess: the signature is checked first and no longer fits
    let mut parts = balanced_parts(TEST_RANGE_PROOF_RANGE);
    parts.kernel.excess = parts.kernel.excess.add(&delta);
    let mut tx = transaction_of(parts);
    assert_eq!(
        tx.validate_internal_consistency(None, TEST_RANGE_PROOF_RANGE),
        Err(TransactionError::InvalidSignatureError)
    );
    assert!(is_validation_error(&tx.validate_kernel_sum(), BALANCE_MESSAGE));

    // the excess, signed anew for another secret: signed, and out of balance
    let mut parts = balanced_parts(TEST_RANGE_PROOF_RANGE);
    let x = random_scalar();
    parts.kernel.excess = CommitmentFactory::from_public_key(&PublicKey::from_secret_key(&key(&x)));
    parts.kernel.excess_sig = sign(&x, parts.kernel.fee, parts.kernel.lock_height);
    let mut tx = transaction_of(parts);
    assert_eq!(tx.body.verify_kernel_signatures(), Ok(()));
    let r = tx.validate_internal_consistency(None, TEST_RANGE_PROOF_RANGE);
    assert!(is_validation_error(&r, BALANCE_MESSAGE));
}

#[test]
fn changing_the_fee_is_caught_by_the_signature() {
    let mut parts = balanced_parts(TEST_RANGE_PROOF_RANGE);
    parts.kernel.fee += 1;
    let mut tx = transaction_of(parts);
    assert_eq!(
        tx.validate_internal_consistency(None, TEST_RANGE_PROOF_RANGE),
        Err(TransactionError::InvalidSignatureError)
    );
}

#[test]
fn a_fee_signed_for_but_not_paid_unbalances() {
    let mut parts = balanced_parts(TEST_RANGE_PROOF_RANGE);
    // The kernel is signed anew over a higher fee with the same excess:
    // the signature is valid, the sums no longer agree.
    let k_excess = parts.kernel.excess;
    let x = random_scalar();
    let excess = CommitmentFactory::from_public_key(&PublicKey::from_secret_key(&key(&x)));
    assert!(excess != k_excess);
    parts.kernel = KernelBuilder::new()
        .with_fee(200)
        .with_lock_height(7)
        .with_excess(&excess)
        .with_signature(&sign(&x, 200, 7))
        .build()
        .unwrap();
    let mut tx = transaction_of(parts);
    let r = tx.validate_internal_consistency(None, TEST_RANGE_PROOF_RANGE);
    assert!(is_validation_error(&r, BALANCE_MESSAGE));
}

#[test]
fn signature_is_checked_before_the_balance_and_the_balance_before_the_proofs() {
    // not signed, not balanced, a proof that does not verify
    let mut parts = balanced_parts(TEST_RANGE_PROOF_RANGE);
    parts.kernel.lock_height += 1;
    parts.inputs.pop();
    parts.outputs[0].proof = vec![];
    let mut tx = transaction_of(parts);
    assert_eq!(
        tx.validate_internal_consistency(None, TEST_RANGE_PROOF_RANGE),
        Err(TransactionError::InvalidSignatureError)
    );

    // signed, not balanced, a proof that does not verify
    let mut parts = balanced_parts(TEST_RANGE_PROOF_RANGE);
    parts.inputs.pop();
    parts.outputs[0].proof = vec![];
    let mut tx = transaction_of(parts);
    let r = tx.validate_internal_consistency(None, TEST_RANGE_PROOF_RANGE);
    assert!(is_validation_error(&r, BALANCE_MESSAGE));

    // signed, not balanced, no service to be had: the balance still decides
    let mut parts = balanced_parts(TEST_RANGE_PROOF_RANGE);
    parts.inputs.pop();
    let mut tx = transaction_of(parts);
    let r = tx.validate_internal_consistency(None, 0);
    assert!(is_validation_error(&r, BALANCE_MESSAGE));
}

#[test]
fn the_error_names_the_first_output_whose_proof_fails() {
    let mut parts = balanced_parts(TEST_RANGE_PROOF_RANGE);
    parts.outputs[1].proof = vec![];
    let mut tx = transaction_of(parts);
    let r = tx.validate_internal_consistency(None, TEST_RANGE_PROOF_RANGE);
    assert!(is_validation_error(&r, "Range proof could not be verified for output 1"));

    let mut parts = balanced_parts(TEST_RANGE_PROOF_RANGE);
    parts.outputs[0].proof = vec![];
    parts.outputs[1].proof = vec![];
    let tx = transaction_of(parts);
    let r = tx.validate_range_proofs(None, TEST_RANGE_PROOF_RANGE);
    assert!(is_validation_error(&r, "Range proof could not be verified for output 0"));
}

#[test]
fn the_place_of_an_output_is_written_in_decimal() {
    let good = TransactionOutput::try_from(&UnblindedOutput::new(1, random_key(), None), 8).unwrap();
    let mut outputs: Vec<TransactionOutput> = (0..124).map(|_| good.clone()).collect();
    outputs[123].proof = vec![];
    let prover = RangeProofService::new(8, &CommitmentFactory::default()).unwrap();
    let tx = Transaction::new(vec![], outputs, vec![], random_key());
    let r = tx.validate_range_proofs(Some(&prover), 8);
    assert!(is_validation_error(&r, "Range proof could not be verified for output 123"));

    let mut outputs: Vec<TransactionOutput> = (0..11).map(|_| good.clone()).collect();
    outputs[10].proof = vec![];
    let tx = Transaction::new(vec![], outputs, vec![], random_key());
    let r = tx.validate_range_proofs(Some(&prover), 8);
    assert!(is_validation_error(&r, "Range proof could not be verified for output 10"));
}

#[test]
fn proofs_of_another_width_fail_validation() {
    let mut tx = transaction_of(balanced_parts(TEST_RANGE_PROOF_RANGE));
    let r = tx.validate_internal_consistency(None, MAX_RANGE_PROOF_RANGE);
    assert!(is_validation_error(&r, "Range proof could not be verified for output 0"));
}

#[test]
fn without_a_service_a_width_that_is_none_is_a_range_proof_error() {
    let mut tx = transaction_of(balanced_parts(TEST_RANGE_PROOF_RANGE));
    assert!(matches!(
        tx.validate_internal_consistency(None, 0),
        Err(TransactionError::RangeProofError(_))
    ));
    assert!(matches!(tx.validate_range_proofs(None, 33), Err(TransactionError::RangeProofError(_))));
}

#[test]
fn a_transaction_without_outputs_needs_no_verifier() {
    // One input of value 100 that is all paid as fee.
    let k_in = random_scalar();
    let offset = random_scalar();
    let input = TransactionInput::from(&UnblindedOutput::new(100, key(&k_in), None));
    let x = &(&RistrettoSecretKey::default() - &k_in) - &offset;
    let excess = CommitmentFactory::from_public_key(&PublicKey::from_secret_key(&key(&x)));
    let kernel = KernelBuilder::new()
        .with_fee(100)
        .with_excess(&excess)
        .with_signature(&sign(&x, 100, 0))
        .build()
        .unwrap();
    let mut tx = Transaction::new(vec![input], vec![], vec![kernel], key(&offset));
    assert_eq!(tx.validate_internal_consistency(None, 0), Ok(()));
    assert_eq!(tx.validate_range_proofs(None, 0), Ok(()));
}

#[test]
fn the_empty_transaction_balances_on_a_zero_offset_only() {
    let mut tx = Transaction::new(vec![], vec![], vec![], SecretKey::default());
    assert_eq!(tx.validate_internal_consistency(None, MAX_RANGE_PROOF_RANGE), Ok(()));
    let sum = tx.sum_kernels().unwrap();
    assert_eq!(sum.fees, 0);
    assert!(sum.sum == CommitmentFactory::zero());
    assert!(tx.sum_commitments(0) == CommitmentFactory::zero());

    let mut tx = Transaction::new(vec![], vec![], vec![], random_key());
    let r = tx.validate_internal_consistency(None, MAX_RANGE_PROOF_RANGE);
    assert!(is_validation_error(&r, BALANCE_MESSAGE));
}

#[test]
fn fees_that_do_not_fit_unbalance_the_transaction() {
    let x = random_scalar();
    let excess = CommitmentFactory::from_public_key(&PublicKey::from_secret_key(&key(&x)));
    let kernel = |fee: u64| {
        KernelBuilder::new()
            .with_fee(fee)
            .with_excess(&excess)
            .with_signature(&sign(&x, fee, 0))
            .build()
            .unwrap()
    };
    let mut tx = Transaction::new(vec![], vec![], vec![kernel(u64::MAX), kernel(1)], random_key());
    assert!(tx.sum_kernels().is_none());
    assert!(is_validation_error(&tx.validate_kernel_sum(), BALANCE_MESSAGE));
    let r = tx.validate_internal_consistency(None, TEST_RANGE_PROOF_RANGE);
    assert!(is_validation_error(&r, BALANCE_MESSAGE));

    let tx = Transaction::new(vec![], vec![], vec![kernel(u64::MAX - 1), kernel(1)], random_key());
    assert_eq!(tx.sum_kernels().unwrap().fees, u64::MAX);
}

#[test]
fn kernels_sum_up_in_their_order() {
    let x = random_scalar();
    let y = random_scalar();
    let kernel = |s: &RistrettoSecretKey, fee: u64| {
        let excess = CommitmentFactory::from_public_key(&PublicKey::from_secret_key(&key(s)));
        KernelBuilder::new()
            .with_fee(fee)
            .with_excess(&excess)
            .with_signature(&sign(s, fee, 0))
            .build()
            .unwrap()
    };
    let offset = random_scalar();
    let tx = Transaction::new(vec![], vec![], vec![kernel(&x, 3), kernel(&y, 4)], key(&offset));
    let sum = tx.sum_kernels().unwrap();
    assert_eq!(sum.fees, 7);
    let total = &(&x + &y) + &offset;
    assert!(sum.sum == CommitmentFactory::from_public_key(&PublicKey::from_secret_key(&key(&total))));
}

#[test]
fn the_order_of_summation_does_not_matter() {
    let parts = balanced_parts(TEST_RANGE_PROOF_RANGE);
    let mut reversed = Parts {
        inputs: parts.inputs.clone(),
        outputs: parts.outputs.clone(),
        kernel: parts.kernel.clone(),
        offset: parts.offset.clone(),
    };
    reversed.inputs.reverse();
    reversed.outputs.reverse();
    let tx = transaction_of(parts);
    let mut swapped = transaction_of(reversed);
    assert!(tx.sum_commitments(100) == swapped.sum_commitments(100));
    assert_eq!(swapped.validate_internal_consistency(None, TEST_RANGE_PROOF_RANGE), Ok(()));
}

//---------------------------------------- the transaction builder ----------------------------------------//

#[test]
fn transaction_builder_needs_an_offset() {
    let parts = balanced_parts(TEST_RANGE_PROOF_RANGE);
    let mut builder = TransactionBuilder::new();
    for input in parts.inputs {
        builder.add_input(input);
    }
    for output in parts.outputs {
        builder.add_output(output);
    }
    builder.with_kernel(parts.kernel);
    match builder.build(TEST_RANGE_PROOF_RANGE) {
        Ok(_) => panic!("a transaction needs its offset"),
        Err(e) => assert_eq!(
            e,
            TransactionError::ValidationError("Transaction validation failed".to_string())
        ),
    }
    match TransactionBuilder::default().build(TEST_RANGE_PROOF_RANGE) {
        Ok(_) => panic!("a transaction needs its offset"),
        Err(e) => assert_eq!(
            e,
            TransactionError::ValidationError("Transaction validation failed".to_string())
        ),
    }
}

#[test]
fn transaction_builder_builds_a_valid_transaction() {
    let parts = balanced_parts(TEST_RANGE_PROOF_RANGE);
    let mut inputs = parts.inputs.clone();
    let mut outputs = parts.outputs.clone();
    let mut builder = TransactionBuilder::new();
    builder
        .add_offset(parts.offset.clone())
        .add_inputs(&mut inputs)
        .add_outputs(&mut outputs)
        .with_kernel(parts.kernel.clone());
    assert!(inputs.is_empty());
    assert!(outputs.is_empty());
    let mut tx = match builder.build(TEST_RANGE_PROOF_RANGE) {
        Ok(tx) => tx,
        Err(e) => panic!("the transaction is valid: {:?}", e),
    };
    assert_eq!(tx.offset.as_bytes(), parts.offset.as_bytes());
    assert_eq!(tx.body.inputs.len(), 2);
    assert!(tx.body.inputs[0].commitment == parts.inputs[0].commitment);
    assert!(tx.body.inputs[1].commitment == parts.inputs[1].commitment);
    assert_eq!(tx.body.outputs.len(), 2);
    assert_eq!(tx.body.outputs[1].proof, parts.outputs[1].proof);
    assert_eq!(tx.body.kernels.len(), 1);
    assert_eq!(tx.body.kernels[0].hash(), parts.kernel.hash());
    assert_eq!(tx.validate_internal_consistency(None, TEST_RANGE_PROOF_RANGE), Ok(()));
}

#[test]
fn transaction_builder_keeps_the_last_kernel_and_offset() {
    let parts = balanced_parts(TEST_RANGE_PROOF_RANGE);
    let other = balanced_parts(TEST_RANGE_PROOF_RANGE);
    let mut builder = TransactionBuilder::new();
    builder.add_offset(other.offset).with_kernel(other.kernel);
    builder.add_offset(parts.offset).with_kernel(parts.kernel.clone());
    builder.add_input(parts.inputs[0]).add_input(parts.inputs[1]);
    builder.add_output(parts.outputs[0].clone()).add_output(parts.outputs[1].clone());
    let tx = match builder.build(TEST_RANGE_PROOF_RANGE) {
        Ok(tx) => tx,
        Err(e) => panic!("the transaction is valid: {:?}", e),
    };
    assert_eq!(tx.body.kernels.len(), 1);
    assert_eq!(tx.body.kernels[0].hash(), parts.kernel.hash());
}

#[test]
fn transaction_builder_hands_on_the_error_of_the_check_that_fails() {
    // not signed
    let mut parts = balanced_parts(TEST_RANGE_PROOF_RANGE);
    parts.kernel.fee = 99;
    let mut builder = TransactionBuilder::new();
    builder.add_offset(parts.offset).add_inputs(&mut parts.inputs).add_outputs(&mut parts.outputs);
    builder.with_kernel(parts.kernel);
    assert_eq!(builder.build(TEST_RANGE_PROOF_RANGE).err(), Some(TransactionError::InvalidSignatureError));

    // not balanced
    let mut parts = balanced_parts(TEST_RANGE_PROOF_RANGE);
    let mut builder = TransactionBuilder::new();
    builder.add_offset(parts.offset).add_outputs(&mut parts.outputs).with_kernel(parts.kernel);
    assert_eq!(
        builder.build(TEST_RANGE_PROOF_RANGE).err(),
        Some(TransactionError::ValidationError(BALANCE_MESSAGE.to_string()))
    );

    // proofs of another width than the one they are checked at
    let mut parts = balanced_parts(TEST_RANGE_PROOF_RANGE);
    let mut builder = TransactionBuilder::new();
    builder.add_offset(parts.offset).add_inputs(&mut parts.inputs).add_outputs(&mut parts.outputs);
    builder.with_kernel(parts.kernel);
    assert_eq!(
        builder.build(MAX_RANGE_PROOF_RANGE).err(),
        Some(TransactionError::ValidationError(
            "Range proof could not be verified for output 0".to_string()
        ))
    );

    // no service to be had
    let mut parts = balanced_parts(TEST_RANGE_PROOF_RANGE);
    let mut builder = TransactionBuilder::new();
    builder.add_offset(parts.offset).add_inputs(&mut parts.inputs).add_outputs(&mut parts.outputs);
    builder.with_kernel(parts.kernel);
    assert!(matches!(builder.build(0), Err(TransactionError::RangeProofError(_))));
}

#[test]
fn aggregate_body_collects_in_order() {
    let parts = balanced_parts(TEST_RANGE_PROOF_RANGE);
    let mut body = AggregateBody::empty();
    assert!(body.inputs.is_empty() && body.outputs.is_empty() && body.kernels.is_empty());
    body.add_input(parts.inputs[1]);
    let mut more = vec![parts.inputs[0], parts.inputs[1]];
    body.add_inputs(&mut more);
    assert!(more.is_empty());
    assert_eq!(body.inputs.len(), 3);
    assert!(body.inputs[0].commitment == parts.inputs[1].commitment);
    assert!(body.inputs[1].commitment == parts.inputs[0].commitment);
    body.add_output(parts.outputs[0].clone());
    let mut more = vec![parts.outputs[1].clone()];
    body.add_outputs(&mut more);
    assert!(more.is_empty());
    assert_eq!(body.outputs.len(), 2);
    assert_eq!(body.outputs[1].proof, parts.outputs[1].proof);
    body.add_kernel(parts.kernel.clone());
    body.add_kernel(parts.kernel.clone());
    assert_eq!(body.kernels.len(), 2);
    body.set_kernel(parts.kernel.clone());
    assert_eq!(body.kernels.len(), 1);
    assert_eq!(body.verify_kernel_signatures(), Ok(()));
    let mut bad = parts.kernel.clone();
    bad.fee = 1;
    body.add_kernel(bad);
    assert_eq!(body.verify_kernel_signatures(), Err(TransactionError::InvalidSignatureError));
    let body = AggregateBody::new(vec![], vec![], vec![]);
    assert_eq!(body.verify_kernel_signatures(), Ok(()));
}

//---------------------------------------- the flags ----------------------------------------//

#[test]
fn output_features_keep_their_bit() {
    assert_eq!(OutputFeatures::empty().bits(), 0);
    assert_eq!(OutputFeatures::coinbase_output().bits(), 0b0000_0001);
    assert_eq!(OutputFeatures::from_bits(0), Some(OutputFeatures::empty()));
    assert_eq!(OutputFeatures::from_bits(1), Some(OutputFeatures::coinbase_output()));
    assert_eq!(OutputFeatures::from_bits(2), None);
    assert_eq!(OutputFeatures::from_bits(3), None);
    assert_eq!(OutputFeatures::from_bits(255), None);
    assert!(OutputFeatures::coinbase_output().contains(OutputFeatures::coinbase_output()));
    assert!(OutputFeatures::coinbase_output().contains(OutputFeatures::empty()));
    assert!(!OutputFeatures::empty().contains(OutputFeatures::coinbase_output()));
    assert!(OutputFeatures::empty() < OutputFeatures::coinbase_output());
}

#[test]
fn kernel_features_keep_their_bit() {
    assert_eq!(KernelFeatures::empty().bits(), 0);
    assert_eq!(KernelFeatures::coinbase_kernel().bits(), 1u8);
    assert_eq!(KernelFeatures::from_bits(1), Some(KernelFeatures::coinbase_kernel()));
    assert_eq!(KernelFeatures::from_bits(128), None);
    assert!(KernelFeatures::coinbase_kernel().contains(KernelFeatures::coinbase_kernel()));
    assert!(!KernelFeatures::empty().contains(KernelFeatures::coinbase_kernel()));
}

//---------------------------------------- the verdict on the answers ----------------------------------------//

#[test]
fn the_verdict_names_the_first_answer_that_is_no() {
    assert_eq!(range_proof_verdict(&vec![]), Ok(()));
    assert_eq!(range_proof_verdict(&vec![true]), Ok(()));
    assert_eq!(range_proof_verdict(&vec![true, true, true]), Ok(()));
    let named = |answers: Vec<bool>, place: usize| {
        let expected = format!("Range proof could not be verified for output {}", place);
        assert!(is_validation_error(&range_proof_verdict(&answers), &expected));
    };
    named(vec![false], 0);
    named(vec![false, false], 0);
    named(vec![false, true, true], 0);
    named(vec![true, false], 1);
    named(vec![true, false, false, true], 1);
    named(vec![true, true, true, false], 3);
    let mut answers = vec![true; 12];
    answers[11] = false;
    named(answers, 11);
}

#[test]
fn an_error_of_the_primitive_is_carried_as_it_is() {
    let e = match RangeProofService::new(0, &CommitmentFactory::default()) {
        Err(e) => e,
        Ok(_) => panic!("no range-proof service has 0 bits"),
    };
    assert_eq!(TransactionError::from(e.clone()), TransactionError::RangeProofError(e));
}

#[test]
fn an_output_that_is_made_has_a_proof_of_the_length_of_its_width() {
    for (range, length) in [(8usize, 480usize), (16, 544), (32, 608), (64, 672)] {
        let u = UnblindedOutput::new(3, random_key(), None);
        let output = TransactionOutput::try_from(&u, range).unwrap();
        assert_eq!(output.proof.len(), length);
    }
    // Where a service is made and no proof, the error is the primitive's.
    for range in [24usize, 40, 120] {
        let u = UnblindedOutput::new(3, random_key(), None);
        assert!(matches!(TransactionOutput::try_from(&u, range), Err(TransactionError::RangeProofError(_))));
    }
}
