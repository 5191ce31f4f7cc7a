//! The entities of a confidential transaction and the rules that make one
//! internally consistent.

use crate::block::signatures_valid;
use crate::block::AggregateBody;
use crate::block::AggregateBodyView;
use crate::decimal::decimal;
use crate::decimal::lemma_decimal_injective;
use crate::decimal::push_decimal;
use crate::primitives::blake256;
use crate::primitives::blake256_digest;
use crate::primitives::is_proof_range;
use crate::primitives::is_proving_range;
use crate::primitives::pedersen_commitment;
use crate::primitives::point_difference;
use crate::primitives::point_sum;
use crate::primitives::proof_length;
use crate::primitives::public_key_of;
use crate::primitives::schnorr_verifies;
use crate::primitives::zero_scalar;
use crate::transaction_protocol::build_challenge;
use crate::transaction_protocol::challenge;
use crate::transaction_protocol::TransactionMetadata;
use crate::types::slices_equal;
use crate::types::zero_commitment;
use crate::types::BlindingFactor;
use crate::types::Commitment;
use crate::types::CommitmentFactory;
use crate::types::PublicKey;
use crate::types::RangeProof;
use crate::types::RangeProofService;
use crate::types::SecretKey;
use crate::types::Signature;
use crate::types::SignatureView;
use vstd::bytes::spec_u64_to_le_bytes;
use vstd::bytes::u64_to_le_bytes;
use vstd::prelude::*;

verus! {

// These limits are policy: the caller that assembles or relays a transaction
// enforces them, not the checks of this module.
/// The largest number of inputs a transaction may have.
pub const MAX_TRANSACTION_INPUTS: usize = 500;

/// The largest number of outputs a transaction may have.
pub const MAX_TRANSACTION_OUTPUTS: usize = 100;

/// The largest number of recipients a transaction may have.
pub const MAX_TRANSACTION_RECIPIENTS: usize = 15;

/// The smallest fee a transaction may pay.
pub const MINIMUM_TRANSACTION_FEE: u64 = 100;

/// The width of the range proofs of the ledger, in bits: values lie in
/// `[0, 2^64)`. A narrower width serves only to make proofs that fail.
pub const MAX_RANGE_PROOF_RANGE: usize = 64;

//--------------------------------------        Bit flag features   --------------------------------------------------//

/// Options for a kernel's structure or use, one bit each.
#[derive(Clone, Copy, Debug, PartialEq, Eq, Structural, PartialOrd, Ord, Hash)]
pub struct KernelFeatures {
    bits: u8,
}

impl KernelFeatures {
    /// The flags as a byte.
    pub closed spec fn spec_bits(&self) -> u8 {
        self.bits
    }

    /// Only the bits that name a flag are ever set.
    #[verifier::type_invariant]
    spec fn known_bits_only(self) -> bool {
        self.bits & !1u8 == 0
    }

    /// No flag set.
    pub fn empty() -> (flags: KernelFeatures)
        ensures
            flags.spec_bits() == 0,
    {
        assert(0u8 & !1u8 == 0) by (bit_vector);
        KernelFeatures { bits: 0 }
    }

    /// The flag of a coinbase kernel, bit 0.
    pub fn coinbase_kernel() -> (flags: KernelFeatures)
        ensures
            flags.spec_bits() == 1,
    {
        assert(1u8 & !1u8 == 0) by (bit_vector);
        KernelFeatures { bits: 1 }
    }

    /// The flags with the given bits, where every bit names a flag.
    pub fn from_bits(bits: u8) -> (flags: Option<KernelFeatures>)
        ensures
            flags is Some <==> bits & !1u8 == 0,
            flags matches Some(f) ==> f.spec_bits() == bits,
    {
        if bits & !1u8 == 0 {
            Some(KernelFeatures { bits })
        } else {
            None
        }
    }

    /// The flags as a byte.
    #[verifier::when_used_as_spec(spec_bits)]
    pub fn bits(&self) -> (bits: u8)
        ensures
            bits == self.spec_bits(),
            bits & !1u8 == 0,
    {
        proof {
            use_type_invariant(self);
        }
        self.bits
    }

    /// Whether every flag of `other` is set in these flags.
    pub fn contains(&self, other: KernelFeatures) -> (contained: bool)
        ensures
            contained == (self.spec_bits() & other.spec_bits() == other.spec_bits()),
    {
        self.bits & other.bits == other.bits
    }
}

/// Options for an output's structure or use, one bit each.
#[derive(Clone, Copy, Debug, PartialEq, Eq, Structural, PartialOrd, Ord, Hash)]
pub struct OutputFeatures {
    bits: u8,
}

impl OutputFeatures {
    /// The flags as a byte.
    pub closed spec fn spec_bits(&self) -> u8 {
        self.bits
    }

    /// Only the bits that name a flag are ever set.
    #[verifier::type_invariant]
    spec fn known_bits_only(self) -> bool {
        self.bits & !1u8 == 0
    }

    /// No flag set.
    pub fn empty() -> (flags: OutputFeatures)
        ensures
            flags.spec_bits() == 0,
    {
        assert(0u8 & !1u8 == 0) by (bit_vector);
        OutputFeatures { bits: 0 }
    }

    /// The flag of a coinbase output, which must not be spent before it
    /// matures: bit 0.
    pub fn coinbase_output() -> (flags: OutputFeatures)
        ensures
            flags.spec_bits() == 1,
    {
        assert(1u8 & !1u8 == 0) by (bit_vector);
        OutputFeatures { bits: 1 }
    }

    /// The flags with the given bits, where every bit names a flag.
    pub fn from_bits(bits: u8) -> (flags: Option<OutputFeatures>)
        ensures
            flags is Some <==> bits & !1u8 == 0,
            flags matches Some(f) ==> f.spec_bits() == bits,
    {
        if bits & !1u8 == 0 {
            Some(OutputFeatures { bits })
        } else {
            None
        }
    }

    /// The flags as a byte.
    #[verifier::when_used_as_spec(spec_bits)]
    pub fn bits(&self) -> (bits: u8)
        ensures
            bits == self.spec_bits(),
            bits & !1u8 == 0,
    {
        proof {
            use_type_invariant(self);
        }
        self.bits
    }

    /// Whether every flag of `other` is set in these flags.
    pub fn contains(&self, other: OutputFeatures) -> (contained: bool)
        ensures
            contained == (self.spec_bits() & other.spec_bits() == other.spec_bits()),
    {
        self.bits & other.bits == other.bits
    }
}

//----------------------------------------     TransactionError   ----------------------------------------------------//

/// Why a transaction, or a part of one, was rejected.
#[derive(Clone, Debug, PartialEq)]
pub enum TransactionError {
    /// The transaction is not valid; the message says why.
    ValidationError(String),
    /// A signature could not be verified.
    InvalidSignatureError,
    /// A kernel was built without its excess or its signature.
    NoSignatureError,
    /// The range-proof primitive failed to set up or to make a proof.
    RangeProofError(tari_crypto::errors::RangeProofError),
}

impl TransactionError {
    /// The transaction error that carries the given error of the range-proof
    /// primitive.
    pub fn from(e: tari_crypto::errors::RangeProofError) -> (error: TransactionError)
        ensures
            error == TransactionError::RangeProofError(e),
    {
        TransactionError::RangeProofError(e)
    }

    /// Whether this is a validation error with exactly the given message.
    pub open spec fn is_validation_error(self, message: Seq<char>) -> bool {
        self matches TransactionError::ValidationError(m) && m@ == message
    }
}

//-----------------------------------------     UnblindedOutput   ----------------------------------------------------//

/// An output whose value and spending key (blinding factor) are known: the
/// only entity that holds a value in the clear. Inputs and outputs are both
/// made from it.
pub struct UnblindedOutput {
    pub value: u64,
    pub spending_key: BlindingFactor,
    pub features: OutputFeatures,
}

/// What an unblinded output is in contracts.
pub struct UnblindedOutputView {
    pub value: u64,
    pub spending_key: Seq<u8>,
    pub features: u8,
}

impl View for UnblindedOutput {
    type V = UnblindedOutputView;

    open spec fn view(&self) -> UnblindedOutputView {
        UnblindedOutputView {
            value: self.value,
            spending_key: self.spending_key@,
            features: self.features.bits(),
        }
    }
}

impl UnblindedOutputView {
    /// The commitment that hides this output: to its value, under its
    /// spending key.
    pub open spec fn commitment(self) -> Seq<u8> {
        pedersen_commitment(self.spending_key, self.value)
    }

    /// The input that spends this output: it has the output's features and
    /// its commitment.
    pub open spec fn as_input(self) -> TransactionInputView {
        TransactionInputView { features: self.features, commitment: self.commitment() }
    }
}

impl UnblindedOutput {
    /// A new unblinded output; without features it has none set.
    pub fn new(value: u64, spending_key: BlindingFactor, features: Option<OutputFeatures>) -> (output:
        UnblindedOutput)
        ensures
            output.value == value,
            output.spending_key == spending_key,
            features matches Some(f) ==> output.features == f,
            features is None ==> output.features.bits() == 0,
    {
        let features = match features {
            Some(f) => f,
            None => OutputFeatures::empty(),
        };
        UnblindedOutput { value, spending_key, features }
    }
}

impl Clone for UnblindedOutput {
    fn clone(&self) -> (output: UnblindedOutput)
        ensures
            output == *self,
    {
        UnblindedOutput {
            value: self.value,
            spending_key: self.spending_key.clone(),
            features: self.features,
        }
    }
}

//----------------------------------------     TransactionInput   ----------------------------------------------------//

/// A transaction input: a reference to the output that the transaction
/// spends.
#[derive(Clone, Copy, Debug)]
pub struct TransactionInput {
    /// The features of the output being spent.
    pub features: OutputFeatures,
    /// The commitment of the output being spent.
    pub commitment: Commitment,
}

/// What a transaction input is in contracts.
pub struct TransactionInputView {
    pub features: u8,
    pub commitment: Seq<u8>,
}

impl View for TransactionInput {
    type V = TransactionInputView;

    open spec fn view(&self) -> TransactionInputView {
        TransactionInputView { features: self.features.bits(), commitment: self.commitment@ }
    }
}

impl TransactionInputView {
    /// Whether the unblinded output opens this input: whether its value and
    /// spending key commit to the input's commitment.
    pub open spec fn opened_by(self, output: UnblindedOutputView) -> bool {
        output.commitment() == self.commitment
    }

    /// The bytes that are hashed into the input's canonical hash: the feature
    /// flags, then the commitment.
    pub open spec fn hash_message(self) -> Seq<u8> {
        seq![self.features] + self.commitment
    }
}

impl TransactionInput {
    /// A new transaction input.
    pub fn new(features: OutputFeatures, commitment: Commitment) -> (input: TransactionInput)
        ensures
            input.features == features,
            input.commitment == commitment,
    {
        TransactionInput { features, commitment }
    }

    /// The input that spends the given unblinded output: it has the output's
    /// features and the commitment to its value under its spending key.
    pub fn from(v: &UnblindedOutput) -> (input: TransactionInput)
        ensures
            input.features == v.features,
            input@ == v@.as_input(),
    {
        let c = CommitmentFactory::create(&v.spending_key, v.value);
        TransactionInput { features: v.features, commitment: c }
    }

    /// The commitment of the input.
    pub fn commitment(&self) -> (commitment: &Commitment)
        ensures
            *commitment == self.commitment,
    {
        &self.commitment
    }

    /// Whether the given unblinded output is the one behind this input.
    pub fn opened_by(&self, input: &UnblindedOutput) -> (opened: bool)
        ensures
            opened == self@.opened_by(input@),
    {
        self.commitment.open(&input.spending_key, input.value)
    }

    /// The canonical hash of the input.
    pub fn hash(&self) -> (digest: Vec<u8>)
        ensures
            digest@ == blake256(self@.hash_message()),
            digest@.len() == 32,
    {
        let mut message: Vec<u8> = Vec::new();
        message.push(self.features.bits());
        message.extend_from_slice(self.commitment.as_bytes().as_slice());
        assert(message@ =~= self@.hash_message());
        blake256_digest(message.as_slice())
    }
}

impl PartialEq for TransactionInput {
    fn eq(&self, other: &TransactionInput) -> (same: bool) {
        self.features == other.features && self.commitment == other.commitment
    }
}

impl Eq for TransactionInput {

}

impl vstd::std_specs::cmp::PartialEqSpecImpl for TransactionInput {
    open spec fn obeys_eq_spec() -> bool {
        true
    }

    /// Two inputs are equal where their features and their commitments are.
    open spec fn eq_spec(&self, other: &TransactionInput) -> bool {
        self@ == other@
    }
}

//----------------------------------------   TransactionOutput    ----------------------------------------------------//

/// An output of a transaction, which sets out who owns the coins from now
/// on. The commitment hides the amount; the range proof shows that the
/// amount is not negative and does not overflow.
#[derive(Debug)]
pub struct TransactionOutput {
    /// Options for the output's structure or use.
    pub features: OutputFeatures,
    /// The commitment to the amount of the output.
    pub commitment: Commitment,
    /// A proof that the commitment is to an amount in range.
    pub proof: RangeProof,
}

/// What a transaction output is in contracts.
pub struct TransactionOutputView {
    pub features: u8,
    pub commitment: Seq<u8>,
    pub proof: Seq<u8>,
}

impl View for TransactionOutput {
    type V = TransactionOutputView;

    open spec fn view(&self) -> TransactionOutputView {
        TransactionOutputView {
            features: self.features.bits(),
            commitment: self.commitment@,
            proof: self.proof@,
        }
    }
}

/// The width of the verifier that is asked: that of the service that was
/// handed in, and without one, the width that was asked for.
pub open spec fn asked_width(service: Option<usize>, range: usize) -> usize {
    match service {
        Some(width) => width,
        None => range,
    }
}

/// The width of the service that was handed in, if one was.
pub open spec fn width_of(service: Option<&RangeProofService>) -> Option<usize> {
    match service {
        Some(s) => Some(s.width()),
        None => None,
    }
}

impl TransactionOutputView {
    /// Whether the proof can be one of the given width at all: the width is
    /// one at which proofs are made, and the proof has the length of a proof
    /// of that width. A verifier says no to every other proof before it looks
    /// at what the proof holds.
    pub open spec fn proof_fits(self, width: usize) -> bool {
        is_proving_range(width) && self.proof.len() == proof_length(width)
    }

    /// The bytes that are hashed into the output's canonical hash: the
    /// feature flags, then the commitment, then the proof.
    pub open spec fn hash_message(self) -> Seq<u8> {
        seq![self.features] + self.commitment + self.proof
    }
}

/// What becomes of a range proof once the verifier has answered: a proof that
/// did not verify is a validation error.
pub fn require_verified(verified: bool) -> (checked: Result<(), TransactionError>)
    ensures
        verified ==> checked is Ok,
        !verified ==> (checked matches Err(e) && e.is_validation_error(
            "Range proof could not be verified"@,
        )),
{
    if verified {
        Ok(())
    } else {
        Err(TransactionError::ValidationError("Range proof could not be verified".to_owned()))
    }
}

/// The message of the validation error for the output at the given place of
/// a transaction, counted from zero, whose range proof did not verify.
pub open spec fn unverified_output_message(index: nat) -> Seq<char> {
    "Range proof could not be verified for output "@ + decimal(index)
}

/// What becomes of the range proof of the output at the given place of a
/// transaction once the verifier has answered: a proof that did not verify is
/// a validation error that names the output by its place.
pub fn require_output_verified(index: usize, verified: bool) -> (checked: Result<
    (),
    TransactionError,
>)
    ensures
        verified ==> checked is Ok,
        !verified ==> (checked matches Err(e) && e.is_validation_error(
            unverified_output_message(index as nat),
        )),
{
    if verified {
        Ok(())
    } else {
        let mut message = "Range proof could not be verified for output ".to_owned();
        push_decimal(&mut message, index);
        Err(TransactionError::ValidationError(message))
    }
}

/// The place of the first "no" among the answers, or their number where
/// every answer is "yes".
pub open spec fn first_refusal(answers: Seq<bool>) -> nat
    decreases answers.len(),
{
    if answers.len() == 0 || !answers[0] {
        0
    } else {
        1 + first_refusal(answers.drop_first())
    }
}

/// The place of the first "no" is within the answers or just behind them;
/// every answer before it is "yes", and the answer at it, if there is one,
/// is "no".
pub proof fn lemma_first_refusal(answers: Seq<bool>)
    ensures
        first_refusal(answers) <= answers.len(),
        forall|j: int| 0 <= j < first_refusal(answers) ==> answers[j],
        first_refusal(answers) < answers.len() ==> !answers[first_refusal(answers) as int],
    decreases answers.len(),
{
    if answers.len() != 0 && answers[0] {
        let rest = answers.drop_first();
        lemma_first_refusal(rest);
        assert forall|j: int| 0 <= j < first_refusal(answers) implies answers[j] by {
            if j > 0 {
                assert(answers[j] == rest[j - 1]);
            }
        }
        if first_refusal(rest) < rest.len() {
            assert(rest[first_refusal(rest) as int] == answers[first_refusal(rest) as int + 1]);
        }
    }
}

/// A further answer moves the place of the first "no" only where every
/// answer so far was "yes", and then only where it is "yes" itself.
pub proof fn lemma_first_refusal_push(answers: Seq<bool>, answer: bool)
    ensures
        first_refusal(answers.push(answer)) == if first_refusal(answers) == answers.len() && answer {
            answers.len() + 1
        } else {
            first_refusal(answers)
        },
    decreases answers.len(),
{
    let more = answers.push(answer);
    if answers.len() == 0 {
        assert(more[0] == answer);
        assert(more.drop_first().len() == 0);
        assert(first_refusal(more.drop_first()) == 0);
    } else {
        assert(more[0] == answers[0]);
        if answers[0] {
            lemma_first_refusal_push(answers.drop_first(), answer);
            assert(more.drop_first() =~= answers.drop_first().push(answer));
        }
    }
}

/// What the answers of the verifier for the outputs of a transaction come
/// to, the answers taken in the order of the outputs: nothing is wrong where
/// every answer is "yes"; else the validation error names the first output
/// for which the answer is "no".
pub fn range_proof_verdict(answers: &Vec<bool>) -> (checked: Result<(), TransactionError>)
    ensures
        first_refusal(answers@) == answers@.len() ==> checked is Ok,
        first_refusal(answers@) != answers@.len() ==> (checked matches Err(e)
            && e.is_validation_error(unverified_output_message(first_refusal(answers@)))),
{
    let mut i: usize = 0;
    assert(answers@.skip(0) =~= answers@);
    while i < answers.len()
        invariant
            i <= answers.len(),
            first_refusal(answers@) == i + first_refusal(answers@.skip(i as int)),
        decreases answers.len() - i,
    {
        assert(answers@.skip(i as int).drop_first() =~= answers@.skip(i + 1));
        assert(answers@.skip(i as int)[0] == answers@[i as int]);
        match require_output_verified(i, answers[i]) {
            Ok(()) => {},
            Err(e) => {
                return Err(e);
            },
        }
        i += 1;
    }
    Ok(())
}

impl TransactionOutput {
    /// A new transaction output. Nothing is checked: whether the proof
    /// verifies is for `verify_range_proof` to say.
    pub fn new(features: OutputFeatures, commitment: Commitment, proof: RangeProof) -> (output:
        TransactionOutput)
        ensures
            output.features == features,
            output.commitment == commitment,
            output.proof == proof,
    {
        TransactionOutput { features, commitment, proof }
    }

    /// The output for a freshly made proof, given what the verifier said of
    /// it. A prover makes a proof for a value out of range too, so only a
    /// proof that has verified gives an output.
    pub fn from_proof(
        features: OutputFeatures,
        commitment: Commitment,
        proof: RangeProof,
        verified: bool,
    ) -> (made: Result<TransactionOutput, TransactionError>)
        ensures
            verified ==> (made matches Ok(o) && o.features == features && o.commitment
                == commitment && o.proof == proof),
            !verified ==> (made matches Err(e) && e.is_validation_error(
                "Range proof could not be verified"@,
            )),
    {
        match require_verified(verified) {
            Ok(()) => Ok(TransactionOutput { features, commitment, proof }),
            Err(e) => Err(e),
        }
    }

    /// The output that creates the given unblinded output: it has the
    /// output's features, the commitment to its value under its spending key,
    /// and a proof of `range` bits that the value is in range.
    ///
    /// The proof is made and then verified at once. Where the width is not
    /// one of 8, 16, 32 and 64 bits, or the prover fails, the primitive's error
    /// comes back; where the new proof does not verify, a validation error.
    /// The proof of an output that is made has the length of a proof of
    /// `range` bits.
    pub fn try_from(v: &UnblindedOutput, range: usize) -> (made: Result<
        TransactionOutput,
        TransactionError,
    >)
        ensures
            !is_proving_range(range) ==> made matches Err(TransactionError::RangeProofError(_)),
            made matches Ok(o) ==> o.features == v.features && o@.commitment == v@.commitment()
                && o@.proof_fits(range),
            made matches Err(e) ==> e is RangeProofError || e.is_validation_error(
                "Range proof could not be verified"@,
            ),
    {
        let c = CommitmentFactory::create(&v.spending_key, v.value);
        let prover = match RangeProofService::new(range, &CommitmentFactory::default()) {
            Ok(prover) => prover,
            Err(e) => {
                return Err(TransactionError::from(e));
            },
        };
        let proof = match prover.construct_proof(&v.spending_key, v.value) {
            Ok(proof) => proof,
            Err(e) => {
                return Err(TransactionError::from(e));
            },
        };
        let verified = prover.verify(&proof, &c);
        TransactionOutput::from_proof(v.features, c, proof, verified)
    }

    /// The commitment of the output.
    pub fn commitment(&self) -> (commitment: &Commitment)
        ensures
            *commitment == self.commitment,
    {
        &self.commitment
    }

    /// The range proof of the output.
    pub fn range_proof(&self) -> (range_proof: &RangeProof)
        ensures
            *range_proof == self.proof,
    {
        &self.proof
    }

    /// What the verifier says of the output's range proof and commitment.
    /// Without a service, one of `range` bits is made for this call; where
    /// that fails, the primitive's error comes back.
    ///
    /// The answer is yes only for a proof that can be one of the verifier's
    /// width; whether such a proof verifies is for the verifier to say.
    pub fn verify_range_proof(
        &self,
        range_proof_service: Option<&RangeProofService>,
        range: usize,
    ) -> (verified: Result<bool, TransactionError>)
        ensures
            range_proof_service is Some || is_proof_range(range) ==> verified is Ok,
            range_proof_service is None && !is_proof_range(range) ==> verified matches Err(
                TransactionError::RangeProofError(_),
            ),
            verified matches Ok(yes) ==> (yes ==> self@.proof_fits(
                asked_width(width_of(range_proof_service), range),
            )),
    {
        match range_proof_service {
            Some(prover) => Ok(prover.verify(&self.proof, &self.commitment)),
            None => match RangeProofService::new(range, &CommitmentFactory::default()) {
                Ok(prover) => Ok(prover.verify(&self.proof, &self.commitment)),
                Err(e) => Err(TransactionError::from(e)),
            },
        }
    }

    /// The canonical hash of the output.
    pub fn hash(&self) -> (digest: Vec<u8>)
        ensures
            digest@ == blake256(self@.hash_message()),
            digest@.len() == 32,
    {
        let mut message: Vec<u8> = Vec::new();
        message.push(self.features.bits());
        message.extend_from_slice(self.commitment.as_bytes().as_slice());
        message.extend_from_slice(self.proof.as_slice());
        assert(message@ =~= self@.hash_message());
        blake256_digest(message.as_slice())
    }
}

impl Default for TransactionOutput {
    /// The placeholder output: no features, the zero commitment and an empty
    /// proof.
    fn default() -> (output: TransactionOutput)
        ensures
            output@ == (TransactionOutputView {
                features: 0,
                commitment: zero_commitment(),
                proof: Seq::<u8>::empty(),
            }),
    {
        TransactionOutput::new(OutputFeatures::empty(), CommitmentFactory::zero(), Vec::new())
    }
}

impl Clone for TransactionOutput {
    fn clone(&self) -> (output: TransactionOutput)
        ensures
            output@ == self@,
            output.features == self.features,
            output.commitment == self.commitment,
    {
        TransactionOutput {
            features: self.features,
            commitment: self.commitment,
            proof: self.proof.clone(),
        }
    }
}

impl PartialEq for TransactionOutput {
    fn eq(&self, other: &TransactionOutput) -> (same: bool) {
        self.features == other.features && self.commitment == other.commitment && slices_equal(
            self.proof.as_slice(),
            other.proof.as_slice(),
        )
    }
}

impl Eq for TransactionOutput {

}

impl vstd::std_specs::cmp::PartialEqSpecImpl for TransactionOutput {
    open spec fn obeys_eq_spec() -> bool {
        true
    }

    /// Two outputs are equal where their features, their commitments and
    /// their proofs are.
    open spec fn eq_spec(&self, other: &TransactionOutput) -> bool {
        self@ == other@
    }
}

//----------------------------------------   Transaction Kernel   ----------------------------------------------------//

/// The kernel of a transaction: it holds the excess of the transaction and
/// what the transaction states in the clear, its fee and the height before
/// which it cannot be mined.
pub struct TransactionKernel {
    /// Options for the kernel's structure or use.
    pub features: KernelFeatures,
    /// The fee of the transaction.
    pub fee: u64,
    /// The kernel is not valid before this block height.
    pub lock_height: u64,
    /// What is left of the sum of all commitments of the transaction. In a
    /// well-formed transaction the amounts cancel, and the excess is a public
    /// key.
    pub excess: Commitment,
    /// The signature that shows the excess to be a public key; it signs the
    /// fee and the lock height.
    pub excess_sig: Signature,
}

/// What a transaction kernel is in contracts.
pub struct TransactionKernelView {
    pub features: u8,
    pub fee: u64,
    pub lock_height: u64,
    pub excess: Seq<u8>,
    pub excess_sig: SignatureView,
}

impl View for TransactionKernel {
    type V = TransactionKernelView;

    open spec fn view(&self) -> TransactionKernelView {
        TransactionKernelView {
            features: self.features.bits(),
            fee: self.fee,
            lock_height: self.lock_height,
            excess: self.excess@,
            excess_sig: self.excess_sig@,
        }
    }
}

impl TransactionKernelView {
    /// Whether the excess signature is valid: for the excess as public key,
    /// and the challenge built from the signature's public nonce, the fee and
    /// the lock height.
    pub open spec fn signature_valid(self) -> bool {
        schnorr_verifies(
            self.excess_sig.public_nonce,
            self.excess_sig.signature,
            self.excess,
            challenge(self.excess_sig.public_nonce, self.fee, self.lock_height),
        )
    }

    /// The bytes that are hashed into the kernel's canonical hash: the feature
    /// flags, the fee and the lock height in eight little-endian bytes each,
    /// the excess, and the public nonce and the scalar of the signature.
    pub open spec fn hash_message(self) -> Seq<u8> {
        seq![self.features] + spec_u64_to_le_bytes(self.fee) + spec_u64_to_le_bytes(
            self.lock_height,
        ) + self.excess + self.excess_sig.public_nonce + self.excess_sig.signature
    }
}

impl TransactionKernel {
    /// Checks the excess signature of the kernel.
    pub fn verify_signature(&self) -> (checked: Result<(), TransactionError>)
        ensures
            checked is Ok <==> self@.signature_valid(),
            checked matches Err(e) ==> e == TransactionError::InvalidSignatureError,
    {
        let excess = self.excess.as_public_key();
        let r = self.excess_sig.get_public_nonce();
        let m = TransactionMetadata { lock_height: self.lock_height, fee: self.fee };
        let c = build_challenge(r, &m);
        if self.excess_sig.verify_challenge(&excess, c.as_slice()) {
            Ok(())
        } else {
            Err(TransactionError::InvalidSignatureError)
        }
    }

    /// The canonical hash of the kernel.
    pub fn hash(&self) -> (digest: Vec<u8>)
        ensures
            digest@ == blake256(self@.hash_message()),
            digest@.len() == 32,
    {
        let mut message: Vec<u8> = Vec::new();
        message.push(self.features.bits());
        let fee = u64_to_le_bytes(self.fee);
        message.extend_from_slice(fee.as_slice());
        let lock_height = u64_to_le_bytes(self.lock_height);
        message.extend_from_slice(lock_height.as_slice());
        message.extend_from_slice(self.excess.as_bytes().as_slice());
        message.extend_from_slice(self.excess_sig.get_public_nonce().as_bytes().as_slice());
        message.extend_from_slice(self.excess_sig.get_signature().as_bytes().as_slice());
        assert(message@ =~= self@.hash_message());
        blake256_digest(message.as_slice())
    }
}

impl Clone for TransactionKernel {
    fn clone(&self) -> (kernel: TransactionKernel)
        ensures
            kernel == *self,
    {
        TransactionKernel {
            features: self.features,
            fee: self.fee,
            lock_height: self.lock_height,
            excess: self.excess,
            excess_sig: self.excess_sig.clone(),
        }
    }
}

impl PartialEq for TransactionKernel {
    fn eq(&self, other: &TransactionKernel) -> (same: bool) {
        self.features == other.features && self.fee == other.fee && self.lock_height
            == other.lock_height && self.excess == other.excess && self.excess_sig
            == other.excess_sig
    }
}

impl Eq for TransactionKernel {

}

impl vstd::std_specs::cmp::PartialEqSpecImpl for TransactionKernel {
    open spec fn obeys_eq_spec() -> bool {
        true
    }

    /// Two kernels are equal where all their fields are.
    open spec fn eq_spec(&self, other: &TransactionKernel) -> bool {
        self@ == other@
    }
}

/// A kernel in the making. Its features, fee and lock height start out
/// empty and zero; its excess and its signature have to be given.
pub struct KernelBuilder {
    features: KernelFeatures,
    fee: u64,
    lock_height: u64,
    excess: Option<Commitment>,
    excess_sig: Option<Signature>,
}

/// What a kernel builder is in contracts.
pub struct KernelBuilderView {
    pub features: u8,
    pub fee: u64,
    pub lock_height: u64,
    pub excess: Option<Seq<u8>>,
    pub excess_sig: Option<SignatureView>,
}

impl View for KernelBuilder {
    type V = KernelBuilderView;

    closed spec fn view(&self) -> KernelBuilderView {
        KernelBuilderView {
            features: self.features.bits(),
            fee: self.fee,
            lock_height: self.lock_height,
            excess: match self.excess {
                Some(c) => Some(c@),
                None => None,
            },
            excess_sig: match self.excess_sig {
                Some(s) => Some(s@),
                None => None,
            },
        }
    }
}

impl KernelBuilder {
    /// A builder with nothing set.
    pub fn new() -> (builder: KernelBuilder)
        ensures
            builder@ == (KernelBuilderView {
                features: 0,
                fee: 0,
                lock_height: 0,
                excess: None,
                excess_sig: None,
            }),
    {
        KernelBuilder {
            features: KernelFeatures::empty(),
            fee: 0,
            lock_height: 0,
            excess: None,
            excess_sig: None,
        }
    }

    /// The builder with the given features.
    pub fn with_features(self, features: KernelFeatures) -> (builder: KernelBuilder)
        ensures
            builder@ == (KernelBuilderView { features: features.bits(), ..self@ }),
    {
        let mut builder = self;
        builder.features = features;
        builder
    }

    /// The builder with the given fee.
    pub fn with_fee(self, fee: u64) -> (builder: KernelBuilder)
        ensures
            builder@ == (KernelBuilderView { fee, ..self@ }),
    {
        let mut builder = self;
        builder.fee = fee;
        builder
    }

    /// The builder with the given lock height.
    pub fn with_lock_height(self, lock_height: u64) -> (builder: KernelBuilder)
        ensures
            builder@ == (KernelBuilderView { lock_height, ..self@ }),
    {
        let mut builder = self;
        builder.lock_height = lock_height;
        builder
    }

    /// The builder with the given excess: the sum of the public spending keys
    /// less the offset.
    pub fn with_excess(self, excess: &Commitment) -> (builder: KernelBuilder)
        ensures
            builder@ == (KernelBuilderView { excess: Some(excess@), ..self@ }),
    {
        let mut builder = self;
        builder.excess = Some(*excess);
        builder
    }

    /// The builder with the given excess signature.
    pub fn with_signature(self, signature: &Signature) -> (builder: KernelBuilder)
        ensures
            builder@ == (KernelBuilderView { excess_sig: Some(signature@), ..self@ }),
    {
        let mut builder = self;
        builder.excess_sig = Some(signature.clone());
        builder
    }

    /// The kernel that was built. It needs its excess and its signature: a
    /// builder that lacks either gives an error.
    pub fn build(self) -> (built: Result<TransactionKernel, TransactionError>)
        ensures
            built is Err <==> self@.excess is None || self@.excess_sig is None,
            built matches Err(e) ==> e == TransactionError::NoSignatureError,
            built matches Ok(k) ==> k@ == (TransactionKernelView {
                features: self@.features,
                fee: self@.fee,
                lock_height: self@.lock_height,
                excess: self@.excess->0,
                excess_sig: self@.excess_sig->0,
            }),
    {
        match (self.excess, self.excess_sig) {
            (Some(excess), Some(excess_sig)) => Ok(
                TransactionKernel {
                    features: self.features,
                    fee: self.fee,
                    lock_height: self.lock_height,
                    excess,
                    excess_sig,
                },
            ),
            _ => Err(TransactionError::NoSignatureError),
        }
    }
}

impl Default for KernelBuilder {
    fn default() -> (builder: KernelBuilder)
        ensures
            builder@ == (KernelBuilderView {
                features: 0,
                fee: 0,
                lock_height: 0,
                excess: None,
                excess_sig: None,
            }),
    {
        KernelBuilder::new()
    }
}

//----------------------------------------      Transaction       ----------------------------------------------------//

/// The sum of the commitments of the inputs, from the zero commitment on and
/// in their order.
pub open spec fn sum_inputs(inputs: Seq<TransactionInputView>) -> Seq<u8>
    decreases inputs.len(),
{
    if inputs.len() == 0 {
        zero_commitment()
    } else {
        point_sum(sum_inputs(inputs.drop_last()), inputs.last().commitment)
    }
}

/// The sum of the commitments of the outputs, from the zero commitment on and
/// in their order.
pub open spec fn sum_outputs(outputs: Seq<TransactionOutputView>) -> Seq<u8>
    decreases outputs.len(),
{
    if outputs.len() == 0 {
        zero_commitment()
    } else {
        point_sum(sum_outputs(outputs.drop_last()), outputs.last().commitment)
    }
}

/// The sum of `start` and the excesses of the kernels, in their order.
pub open spec fn sum_excesses(kernels: Seq<TransactionKernelView>, start: Seq<u8>) -> Seq<u8>
    decreases kernels.len(),
{
    if kernels.len() == 0 {
        start
    } else {
        point_sum(sum_excesses(kernels.drop_last(), start), kernels.last().excess)
    }
}

/// The fees of the kernels together.
pub open spec fn total_fees(kernels: Seq<TransactionKernelView>) -> nat
    decreases kernels.len(),
{
    if kernels.len() == 0 {
        0
    } else {
        total_fees(kernels.drop_last()) + kernels.last().fee as nat
    }
}

/// What the inputs, the outputs and the fees come to: the outputs less the
/// inputs, plus the commitment to the fees under a zero blinding factor.
pub open spec fn sum_io(
    inputs: Seq<TransactionInputView>,
    outputs: Seq<TransactionOutputView>,
    fees: u64,
) -> Seq<u8> {
    point_sum(
        point_difference(sum_outputs(outputs), sum_inputs(inputs)),
        pedersen_commitment(zero_scalar(), fees),
    )
}

/// The fees of a part of the kernels are no more than the fees of all.
pub proof fn lemma_total_fees_grow(kernels: Seq<TransactionKernelView>, n: int)
    requires
        0 <= n <= kernels.len(),
    ensures
        total_fees(kernels.take(n)) <= total_fees(kernels),
    decreases kernels.len(),
{
    if n == kernels.len() {
        assert(kernels.take(n) =~= kernels);
    } else {
        lemma_total_fees_grow(kernels.drop_last(), n);
        assert(kernels.drop_last().take(n) =~= kernels.take(n));
    }
}

/// A transaction: a kernel offset and a body of inputs, outputs and kernels.
pub struct Transaction {
    /// The kernel offset. It keeps an observer from finding out, by trying
    /// subsets of inputs and outputs, which of them a kernel belongs to.
    pub offset: BlindingFactor,
    /// The inputs, outputs and kernels of the transaction.
    pub body: AggregateBody,
}

/// What a transaction is in contracts.
pub struct TransactionView {
    pub offset: Seq<u8>,
    pub body: AggregateBodyView,
}

impl View for Transaction {
    type V = TransactionView;

    open spec fn view(&self) -> TransactionView {
        TransactionView { offset: self.offset@, body: self.body@ }
    }
}

impl TransactionView {
    /// Whether the excess signature of every kernel is valid.
    pub open spec fn signed(self) -> bool {
        signatures_valid(self.body.kernels)
    }

    /// The fees of the transaction.
    pub open spec fn fees(self) -> nat {
        total_fees(self.body.kernels)
    }

    /// The sum of the kernels: the public key of the offset plus every excess.
    pub open spec fn kernel_sum(self) -> Seq<u8> {
        sum_excesses(self.body.kernels, public_key_of(self.offset))
    }

    /// Whether the transaction balances: its fees fit 64 bits, and the sum of
    /// its kernels is, byte for byte, what its inputs, outputs and fees come
    /// to.
    pub open spec fn balanced(self) -> bool {
        self.fees() <= u64::MAX && self.kernel_sum() == sum_io(
            self.body.inputs,
            self.body.outputs,
            self.fees() as u64,
        )
    }
}

/// What checking the range proofs of the outputs may come to, for the
/// width of the service that was handed in, if one was, and the width that
/// was asked for.
///
/// With no output there is nothing to check. Without a service, and with a
/// width from which none can be made, the primitive's error comes back. Else
/// the verifier decides. Where nothing is wrong, every proof can be one of the
/// verifier's width. Where something is, the validation error names an output
/// by its place, and every proof before that place can be one of the
/// verifier's width.
pub open spec fn range_proofs_allow(
    outputs: Seq<TransactionOutputView>,
    service: Option<usize>,
    range: usize,
    checked: Result<(), TransactionError>,
) -> bool {
    let width = asked_width(service, range);
    if outputs.len() == 0 {
        checked is Ok
    } else if service is None && !is_proof_range(range) {
        checked matches Err(TransactionError::RangeProofError(_))
    } else {
        match checked {
            Ok(_) => forall|j: int| 0 <= j < outputs.len() ==> (#[trigger] outputs[j]).proof_fits(width),
            Err(e) => exists|k: nat|
                k < outputs.len() && e.is_validation_error(#[trigger] unverified_output_message(k))
                    && forall|j: int| 0 <= j < k ==> (#[trigger] outputs[j]).proof_fits(width),
        }
    }
}

/// What checking a transaction may come to. The checks run in order and the
/// first that fails decides: a kernel signature that is not valid, then sums
/// that do not balance, then the range proofs.
pub open spec fn consistency_allows(
    tx: TransactionView,
    service: Option<usize>,
    range: usize,
    checked: Result<(), TransactionError>,
) -> bool {
    if !tx.signed() {
        checked matches Err(e) && e == TransactionError::InvalidSignatureError
    } else if !tx.balanced() {
        checked matches Err(e) && e.is_validation_error(
            "Sum of inputs and outputs did not equal sum of kernels with fees"@,
        )
    } else {
        range_proofs_allow(tx.body.outputs, service, range, checked)
    }
}

/// The sum of the kernels of a transaction and the fees they pay.
pub struct KernelSum {
    pub sum: Commitment,
    pub fees: u64,
}

impl Transaction {
    /// The transaction of the given inputs, outputs, kernels and offset.
    pub fn new(
        inputs: Vec<TransactionInput>,
        outputs: Vec<TransactionOutput>,
        kernels: Vec<TransactionKernel>,
        offset: BlindingFactor,
    ) -> (tx: Transaction)
        ensures
            tx.offset == offset,
            tx.body.inputs == inputs,
            tx.body.outputs == outputs,
            tx.body.kernels == kernels,
    {
        Transaction { offset, body: AggregateBody::new(inputs, outputs, kernels) }
    }

    /// What the inputs, the outputs and the given fees come to.
    pub fn sum_commitments(&self, fees: u64) -> (sum: Commitment)
        ensures
            sum@ == sum_io(self@.body.inputs, self@.body.outputs, fees),
    {
        let fee_commitment = CommitmentFactory::create(&SecretKey::default(), fees);
        let mut sum_inputs = CommitmentFactory::zero();
        let mut i: usize = 0;
        while i < self.body.inputs.len()
            invariant
                i <= self.body.inputs.len(),
                sum_inputs@ == self::sum_inputs(self@.body.inputs.take(i as int)),
            decreases self.body.inputs.len() - i,
        {
            assert(self@.body.inputs.take(i + 1).drop_last() =~= self@.body.inputs.take(i as int));
            sum_inputs = sum_inputs.add(&self.body.inputs[i].commitment);
            i += 1;
        }
        assert(self@.body.inputs.take(i as int) =~= self@.body.inputs);
        let mut sum_outputs = CommitmentFactory::zero();
        let mut j: usize = 0;
        while j < self.body.outputs.len()
            invariant
                j <= self.body.outputs.len(),
                sum_outputs@ == self::sum_outputs(self@.body.outputs.take(j as int)),
            decreases self.body.outputs.len() - j,
        {
            assert(self@.body.outputs.take(j + 1).drop_last() =~= self@.body.outputs.take(
                j as int,
            ));
            sum_outputs = sum_outputs.add(&self.body.outputs[j].commitment);
            j += 1;
        }
        assert(self@.body.outputs.take(j as int) =~= self@.body.outputs);
        sum_outputs.sub(&sum_inputs).add(&fee_commitment)
    }

    /// The sum of the kernels, from the public key of the offset on, and
    /// the fees they pay; nothing where the fees do not fit 64 bits.
    pub fn sum_kernels(&self) -> (total: Option<KernelSum>)
        ensures
            total is Some <==> self@.fees() <= u64::MAX,
            total matches Some(t) ==> t.fees == self@.fees() && t.sum@ == self@.kernel_sum(),
    {
        let public_offset = PublicKey::from_secret_key(&self.offset);
        let offset_commitment = CommitmentFactory::from_public_key(&public_offset);
        let mut fees: u64 = 0;
        let mut sum = offset_commitment;
        let mut i: usize = 0;
        while i < self.body.kernels.len()
            invariant
                i <= self.body.kernels.len(),
                fees == total_fees(self@.body.kernels.take(i as int)),
                sum@ == sum_excesses(
                    self@.body.kernels.take(i as int),
                    public_key_of(self.offset@),
                ),
            decreases self.body.kernels.len() - i,
        {
            assert(self@.body.kernels.take(i + 1).drop_last() =~= self@.body.kernels.take(
                i as int,
            ));
            let kernel = &self.body.kernels[i];
            fees = match fees.checked_add(kernel.fee) {
                Some(fees) => fees,
                None => {
                    proof {
                        lemma_total_fees_grow(self@.body.kernels, i + 1);
                    }
                    return None;
                },
            };
            sum = sum.add(&kernel.excess);
            i += 1;
        }
        assert(self@.body.kernels.take(i as int) =~= self@.body.kernels);
        Some(KernelSum { fees, sum })
    }

    /// Checks that the outputs less the inputs, plus the fees, are the sum of
    /// the kernels.
    pub fn validate_kernel_sum(&self) -> (checked: Result<(), TransactionError>)
        ensures
            checked is Ok <==> self@.balanced(),
            checked matches Err(e) ==> e.is_validation_error(
                "Sum of inputs and outputs did not equal sum of kernels with fees"@,
            ),
    {
        let balanced = match self.sum_kernels() {
            Some(kernel_sum) => {
                let sum_io = self.sum_commitments(kernel_sum.fees);
                kernel_sum.sum == sum_io
            },
            None => false,
        };
        if !balanced {
            return Err(
                TransactionError::ValidationError(
                    "Sum of inputs and outputs did not equal sum of kernels with fees".to_owned(),
                ),
            );
        }
        Ok(())
    }

    /// Checks the range proof of every output, in their order, and stops at
    /// the first that does not verify, which the error names by its place.
    /// Without a service, one of `range` bits is made for each output.
    pub fn validate_range_proofs(
        &self,
        range_proof_service: Option<&RangeProofService>,
        range: usize,
    ) -> (checked: Result<(), TransactionError>)
        ensures
            range_proofs_allow(self@.body.outputs, width_of(range_proof_service), range, checked),
    {
        let ghost width = asked_width(width_of(range_proof_service), range);
        let mut answers: Vec<bool> = Vec::new();
        let mut go_on = true;
        while go_on && answers.len() < self.body.outputs.len()
            invariant
                answers.len() <= self.body.outputs.len(),
                width == asked_width(width_of(range_proof_service), range),
                answers.len() > 0 ==> range_proof_service is Some || is_proof_range(range),
                go_on ==> first_refusal(answers@) == answers.len(),
                !go_on ==> first_refusal(answers@) + 1 == answers.len(),
                forall|j: int|
                    0 <= j < answers.len() && answers[j] ==> (#[trigger] self@.body.outputs[j]).proof_fits(
                        width,
                    ),
            decreases self.body.outputs.len() - answers.len() + if go_on { 1int } else { 0int },
        {
            let i = answers.len();
            let verified = match self.body.outputs[i].verify_range_proof(range_proof_service, range) {
                Ok(verified) => verified,
                Err(e) => {
                    return Err(e);
                },
            };
            proof {
                lemma_first_refusal_push(answers@, verified);
            }
            answers.push(verified);
            go_on = verified;
        }
        proof {
            lemma_first_refusal(answers@);
        }
        range_proof_verdict(&answers)
    }

    /// Checks that the transaction is consistent in itself:
    /// 1. the excess signature of every kernel is valid;
    /// 1. the inputs, outputs and fees come to the sum of the kernels and the
    ///    offset;
    /// 1. the range proof of every output verifies.
    ///
    /// The first check that fails ends the run. The transaction is left as
    /// it is. Whether the inputs are unspent is not checked.
    pub fn validate_internal_consistency(
        &mut self,
        range_proof_service: Option<&RangeProofService>,
        range: usize,
    ) -> (checked: Result<(), TransactionError>)
        ensures
            *final(self) == *old(self),
            consistency_allows(old(self)@, width_of(range_proof_service), range, checked),
    {
        match self.body.verify_kernel_signatures() {
            Ok(()) => {},
            Err(e) => {
                return Err(e);
            },
        }
        match self.validate_kernel_sum() {
            Ok(()) => {},
            Err(e) => {
                return Err(e);
            },
        }
        self.validate_range_proofs(range_proof_service, range)
    }
}

//----------------------------------------   What follows         ----------------------------------------------------//

/// An unblinded output opens the input that spends it. Another unblinded
/// output opens that input exactly where it commits to the same point.
pub proof fn lemma_input_opened_by_its_source(v: UnblindedOutputView, w: UnblindedOutputView)
    ensures
        v.as_input().opened_by(v),
        v.as_input().opened_by(w) <==> w.commitment() == v.commitment(),
{
}

/// A transaction passes only where its kernels are signed, its sums
/// balance, and the range proof of every output can be one of the verifier's
/// width. One whose kernels are signed and whose sums balance passes where
/// it has no output; where it has outputs, the verifier of their range proofs
/// has the last word. One that is signed and does not balance fails with the
/// validation error of the balance, and one that is not signed with the error
/// of the signature.
pub proof fn lemma_what_passes(
    tx: TransactionView,
    service: Option<usize>,
    range: usize,
    checked: Result<(), TransactionError>,
)
    requires
        consistency_allows(tx, service, range, checked),
    ensures
        checked is Ok ==> tx.signed() && tx.balanced() && forall|j: int|
            0 <= j < tx.body.outputs.len() ==> (#[trigger] tx.body.outputs[j]).proof_fits(
                asked_width(service, range),
            ),
        tx.signed() && tx.balanced() && tx.body.outputs.len() == 0 ==> checked is Ok,
        tx.signed() && !tx.balanced() ==> (checked matches Err(e) && e.is_validation_error(
            "Sum of inputs and outputs did not equal sum of kernels with fees"@,
        )),
        !tx.signed() ==> (checked matches Err(e) && e == TransactionError::InvalidSignatureError),
{
}

/// No two places of outputs have the same message.
pub proof fn lemma_output_message_injective(a: nat, b: nat)
    requires
        unverified_output_message(a) == unverified_output_message(b),
    ensures
        a == b,
{
    let prefix = "Range proof could not be verified for output "@;
    assert((prefix + decimal(a)).subrange(prefix.len() as int, (prefix + decimal(a)).len() as int)
        =~= decimal(a));
    assert((prefix + decimal(b)).subrange(prefix.len() as int, (prefix + decimal(b)).len() as int)
        =~= decimal(b));
    lemma_decimal_injective(a, b);
}

/// Where checking the range proofs fails on an output, the output that the
/// error names is one of the transaction's, and the proof of every output
/// before it can be one of the verifier's width.
pub proof fn lemma_named_output(
    outputs: Seq<TransactionOutputView>,
    service: Option<usize>,
    range: usize,
    e: TransactionError,
    k: nat,
)
    requires
        range_proofs_allow(outputs, service, range, Err(e)),
        e.is_validation_error(unverified_output_message(k)),
    ensures
        k < outputs.len(),
        forall|j: int| 0 <= j < k ==> (#[trigger] outputs[j]).proof_fits(asked_width(service, range)),
{
    let named = choose|n: nat|
        n < outputs.len() && e.is_validation_error(#[trigger] unverified_output_message(n))
            && forall|j: int|
            0 <= j < n ==> (#[trigger] outputs[j]).proof_fits(asked_width(service, range));
    lemma_output_message_injective(k, named);
}

/// Where a transaction balances, a change that leaves its fees alone and
/// moves either the sum of its kernels or what its inputs, outputs and fees
/// come to, and not both, gives a transaction that does not balance.
pub proof fn lemma_one_sided_change_unbalances(tx: TransactionView, changed: TransactionView)
    requires
        tx.balanced(),
        changed.fees() == tx.fees(),
        (changed.kernel_sum() == tx.kernel_sum()) != (sum_io(
            changed.body.inputs,
            changed.body.outputs,
            changed.fees() as u64,
        ) == sum_io(tx.body.inputs, tx.body.outputs, tx.fees() as u64)),
    ensures
        !changed.balanced(),
{
}

/// Where a transaction has passed the checks once, a further run passes the
/// checks of the signatures and of the balance again: it can fail only on what
/// the range proofs come to, and not at all where there is no output.
pub proof fn lemma_checked_again(
    tx: TransactionView,
    service: Option<usize>,
    range: usize,
    first: Result<(), TransactionError>,
    service_again: Option<usize>,
    range_again: usize,
    second: Result<(), TransactionError>,
)
    requires
        consistency_allows(tx, service, range, first),
        first is Ok,
        consistency_allows(tx, service_again, range_again, second),
    ensures
        range_proofs_allow(tx.body.outputs, service_again, range_again, second),
        tx.body.outputs.len() == 0 ==> second is Ok,
{
}

/// With a single kernel, as a transaction has it, the fees are the fee of
/// the kernel, and the sum of the kernels is the public key of the offset plus
/// the excess of the kernel.
pub proof fn lemma_single_kernel(tx: TransactionView)
    requires
        tx.body.kernels.len() == 1,
    ensures
        tx.fees() == tx.body.kernels[0].fee,
        tx.kernel_sum() == point_sum(public_key_of(tx.offset), tx.body.kernels[0].excess),
{
    let kernels = tx.body.kernels;
    assert(kernels.drop_last().len() == 0);
    assert(total_fees(kernels) == total_fees(kernels.drop_last()) + kernels.last().fee as nat);
    assert(sum_excesses(kernels, public_key_of(tx.offset)) == point_sum(
        sum_excesses(kernels.drop_last(), public_key_of(tx.offset)),
        kernels.last().excess,
    ));
}

/// Summing starts from the zero commitment, and each input adds its
/// commitment on the right.
pub proof fn lemma_sum_inputs_push(inputs: Seq<TransactionInputView>, input: TransactionInputView)
    ensures
        sum_inputs(Seq::<TransactionInputView>::empty()) == zero_commitment(),
        sum_inputs(inputs.push(input)) == point_sum(sum_inputs(inputs), input.commitment),
{
    assert(inputs.push(input).drop_last() =~= inputs);
}

/// Summing starts from the zero commitment, and each output adds its
/// commitment on the right.
pub proof fn lemma_sum_outputs_push(
    outputs: Seq<TransactionOutputView>,
    output: TransactionOutputView,
)
    ensures
        sum_outputs(Seq::<TransactionOutputView>::empty()) == zero_commitment(),
        sum_outputs(outputs.push(output)) == point_sum(sum_outputs(outputs), output.commitment),
{
    assert(outputs.push(output).drop_last() =~= outputs);
}

//----------------------------------------  Transaction Builder   ----------------------------------------------------//

/// A transaction in the making: a body that grows, and an offset that has
/// to be given before the transaction can be built.
pub struct TransactionBuilder {
    body: AggregateBody,
    offset: Option<BlindingFactor>,
}

/// What a transaction builder is in contracts.
pub struct TransactionBuilderView {
    pub offset: Option<Seq<u8>>,
    pub body: AggregateBodyView,
}

impl View for TransactionBuilder {
    type V = TransactionBuilderView;

    closed spec fn view(&self) -> TransactionBuilderView {
        TransactionBuilderView {
            offset: match self.offset {
                Some(offset) => Some(offset@),
                None => None,
            },
            body: self.body@,
        }
    }
}

impl TransactionBuilder {
    /// A builder without offset, inputs, outputs or kernels.
    pub fn new() -> (builder: TransactionBuilder)
        ensures
            builder@.offset is None,
            builder@.body.inputs.len() == 0,
            builder@.body.outputs.len() == 0,
            builder@.body.kernels.len() == 0,
    {
        TransactionBuilder { offset: None, body: AggregateBody::empty() }
    }

    /// Sets the offset of the transaction.
    pub fn add_offset(&mut self, offset: BlindingFactor) -> (builder: &mut Self)
        ensures
            builder@ == (TransactionBuilderView { offset: Some(offset@), ..old(self)@ }),
            *final(self) == *final(builder),
    {
        self.offset = Some(offset);
        self
    }

    /// Adds an input to the transaction.
    pub fn add_input(&mut self, input: TransactionInput) -> (builder: &mut Self)
        ensures
            builder@.offset == old(self)@.offset,
            builder@.body == (AggregateBodyView {
                inputs: old(self)@.body.inputs.push(input@),
                ..old(self)@.body
            }),
            *final(self) == *final(builder),
    {
        self.body.add_input(input);
        assert(self.body@.inputs =~= old(self).body@.inputs.push(input@));
        self
    }

    /// Adds an output to the transaction.
    pub fn add_output(&mut self, output: TransactionOutput) -> (builder: &mut Self)
        ensures
            builder@.offset == old(self)@.offset,
            builder@.body == (AggregateBodyView {
                outputs: old(self)@.body.outputs.push(output@),
                ..old(self)@.body
            }),
            *final(self) == *final(builder),
    {
        self.body.add_output(output);
        assert(self.body@.outputs =~= old(self).body@.outputs.push(output@));
        self
    }

    /// Moves a series of inputs into the transaction and leaves `inputs`
    /// empty.
    pub fn add_inputs(&mut self, inputs: &mut Vec<TransactionInput>) -> (builder: &mut Self)
        ensures
            builder@.offset == old(self)@.offset,
            builder@.body == (AggregateBodyView {
                inputs: old(self)@.body.inputs + old(inputs)@.map_values(
                    |i: TransactionInput| i@,
                ),
                ..old(self)@.body
            }),
            final(inputs)@.len() == 0,
            *final(self) == *final(builder),
    {
        self.body.add_inputs(inputs);
        assert(self.body@.inputs =~= old(self).body@.inputs + old(inputs)@.map_values(
            |i: TransactionInput| i@,
        ));
        self
    }

    /// Moves a series of outputs into the transaction and leaves `outputs`
    /// empty.
    pub fn add_outputs(&mut self, outputs: &mut Vec<TransactionOutput>) -> (builder: &mut Self)
        ensures
            builder@.offset == old(self)@.offset,
            builder@.body == (AggregateBodyView {
                outputs: old(self)@.body.outputs + old(outputs)@.map_values(
                    |o: TransactionOutput| o@,
                ),
                ..old(self)@.body
            }),
            final(outputs)@.len() == 0,
            *final(self) == *final(builder),
    {
        self.body.add_outputs(outputs);
        assert(self.body@.outputs =~= old(self).body@.outputs + old(outputs)@.map_values(
            |o: TransactionOutput| o@,
        ));
        self
    }

    /// Sets the kernel of the transaction. A transaction has one kernel: the
    /// kernel that was set before is dropped.
    pub fn with_kernel(&mut self, kernel: TransactionKernel) -> (builder: &mut Self)
        ensures
            builder@.offset == old(self)@.offset,
            builder@.body == (AggregateBodyView { kernels: seq![kernel@], ..old(self)@.body }),
            *final(self) == *final(builder),
    {
        self.body.set_kernel(kernel);
        assert(self.body@.kernels =~= seq![kernel@]);
        self
    }

    /// The transaction that was built, once it has passed every check of
    /// `validate_internal_consistency`, with a verifier of `range` bits made
    /// for the purpose. A builder without offset gives a validation error; a
    /// transaction that fails a check gives the error of that check.
    pub fn build(self, range: usize) -> (built: Result<Transaction, TransactionError>)
        ensures
            self@.offset is None ==> (built matches Err(e) && e.is_validation_error(
                "Transaction validation failed"@,
            )),
            self@.offset matches Some(offset) ==> ({
                let tx = TransactionView { offset, body: self@.body };
                &&& built matches Ok(t) ==> t@ == tx && consistency_allows(
                    tx,
                    None,
                    range,
                    Ok(()),
                )
                &&& built matches Err(e) ==> consistency_allows(tx, None, range, Err(e))
            }),
    {
        if let Some(offset) = self.offset {
            let mut tx = Transaction::new(
                self.body.inputs,
                self.body.outputs,
                self.body.kernels,
                offset,
            );
            match tx.validate_internal_consistency(None, range) {
                Ok(()) => Ok(tx),
                Err(e) => Err(e),
            }
        } else {
            Err(TransactionError::ValidationError("Transaction validation failed".to_owned()))
        }
    }
}

impl Default for TransactionBuilder {
    fn default() -> (builder: TransactionBuilder)
        ensures
            builder@.offset is None,
            builder@.body.inputs.len() == 0,
            builder@.body.outputs.len() == 0,
            builder@.body.kernels.len() == 0,
    {
        TransactionBuilder::new()
    }
}

} // verus!
