//! The canonical order of the entities of a transaction: each is ordered by
//! its fields in the order of their declaration, numbers by their size and
//! encodings byte by byte.

use crate::transaction::TransactionInput;
use crate::transaction::TransactionInputView;
use crate::transaction::TransactionKernel;
use crate::transaction::TransactionKernelView;
use crate::transaction::TransactionOutput;
use crate::transaction::TransactionOutputView;
use crate::types::Commitment;
use crate::types::PublicKey;
use crate::types::Signature;
use crate::types::SignatureView;
use std::cmp::Ordering;
use vstd::prelude::*;
use vstd::std_specs::cmp::PartialOrdSpecImpl;

verus! {

/// The order of two numbers.
pub open spec fn number_order(a: u64, b: u64) -> Ordering {
    if a < b {
        Ordering::Less
    } else if a > b {
        Ordering::Greater
    } else {
        Ordering::Equal
    }
}

/// The order of two bytes.
pub open spec fn byte_order(a: u8, b: u8) -> Ordering {
    if a < b {
        Ordering::Less
    } else if a > b {
        Ordering::Greater
    } else {
        Ordering::Equal
    }
}

/// The order of two byte strings: that of the first byte in which they
/// differ, and where one is the start of the other, the shorter comes first.
pub open spec fn bytes_order(a: Seq<u8>, b: Seq<u8>) -> Ordering
    decreases a.len(),
{
    if a.len() == 0 {
        if b.len() == 0 {
            Ordering::Equal
        } else {
            Ordering::Less
        }
    } else if b.len() == 0 {
        Ordering::Greater
    } else if a[0] != b[0] {
        byte_order(a[0], b[0])
    } else {
        bytes_order(a.drop_first(), b.drop_first())
    }
}

/// The order by a first field and then a second: the second decides where
/// the first is equal.
pub open spec fn and_after(first: Ordering, second: Ordering) -> Ordering {
    match first {
        Ordering::Equal => second,
        _ => first,
    }
}

/// The order of two inputs: by their features, then by their commitments.
pub open spec fn input_order(a: TransactionInputView, b: TransactionInputView) -> Ordering {
    and_after(byte_order(a.features, b.features), bytes_order(a.commitment, b.commitment))
}

/// The order of two outputs: by their features, then by their commitments,
/// then by their proofs.
pub open spec fn output_order(a: TransactionOutputView, b: TransactionOutputView) -> Ordering {
    and_after(
        byte_order(a.features, b.features),
        and_after(bytes_order(a.commitment, b.commitment), bytes_order(a.proof, b.proof)),
    )
}

/// The order of two signatures: by their public nonces, then by their
/// scalars.
pub open spec fn signature_order(a: SignatureView, b: SignatureView) -> Ordering {
    and_after(bytes_order(a.public_nonce, b.public_nonce), bytes_order(a.signature, b.signature))
}

/// The order of two kernels: by their features, their fees, their lock
/// heights, their excesses and their signatures, in this order.
pub open spec fn kernel_order(a: TransactionKernelView, b: TransactionKernelView) -> Ordering {
    and_after(
        byte_order(a.features, b.features),
        and_after(
            number_order(a.fee, b.fee),
            and_after(
                number_order(a.lock_height, b.lock_height),
                and_after(
                    bytes_order(a.excess, b.excess),
                    signature_order(a.excess_sig, b.excess_sig),
                ),
            ),
        ),
    )
}

//------------------------------------------- the order is total ------------------------------------------------//

/// Two byte strings are equal in the order exactly where they are the same.
pub proof fn lemma_bytes_order_equal(a: Seq<u8>, b: Seq<u8>)
    ensures
        bytes_order(a, b) == Ordering::Equal <==> a == b,
    decreases a.len(),
{
    if a.len() == 0 || b.len() == 0 {
        if a.len() == 0 && b.len() == 0 {
            assert(a =~= b);
        }
    } else if a[0] == b[0] {
        lemma_bytes_order_equal(a.drop_first(), b.drop_first());
        if a.drop_first() == b.drop_first() {
            assert(a =~= seq![a[0]] + a.drop_first());
            assert(b =~= seq![b[0]] + b.drop_first());
        }
    }
}

/// A byte string comes before another exactly where the other comes after
/// it.
pub proof fn lemma_bytes_order_flips(a: Seq<u8>, b: Seq<u8>)
    ensures
        bytes_order(a, b) == Ordering::Less <==> bytes_order(b, a) == Ordering::Greater,
        bytes_order(a, b) == Ordering::Equal <==> bytes_order(b, a) == Ordering::Equal,
    decreases a.len(),
{
    if a.len() != 0 && b.len() != 0 && a[0] == b[0] {
        lemma_bytes_order_flips(a.drop_first(), b.drop_first());
    }
}

/// Where a byte string comes before a second and the second before a third,
/// the first comes before the third.
pub proof fn lemma_bytes_order_transitive(a: Seq<u8>, b: Seq<u8>, c: Seq<u8>)
    requires
        bytes_order(a, b) == Ordering::Less,
        bytes_order(b, c) == Ordering::Less,
    ensures
        bytes_order(a, c) == Ordering::Less,
    decreases a.len(),
{
    if a.len() != 0 && b.len() != 0 && c.len() != 0 && a[0] == b[0] && b[0] == c[0] {
        lemma_bytes_order_transitive(a.drop_first(), b.drop_first(), c.drop_first());
    }
}

/// The order of the inputs is total: two inputs are equal in it exactly
/// where they are the same, one comes before another exactly where the other
/// comes after it, and coming before carries over.
pub proof fn lemma_input_order_total(
    a: TransactionInputView,
    b: TransactionInputView,
    c: TransactionInputView,
)
    ensures
        input_order(a, b) == Ordering::Equal <==> a == b,
        input_order(a, b) == Ordering::Less <==> input_order(b, a) == Ordering::Greater,
        input_order(a, b) == Ordering::Less && input_order(b, c) == Ordering::Less ==> input_order(
            a,
            c,
        ) == Ordering::Less,
{
    lemma_bytes_order_equal(a.commitment, b.commitment);
    lemma_bytes_order_equal(b.commitment, c.commitment);
    lemma_bytes_order_flips(a.commitment, b.commitment);
    if bytes_order(a.commitment, b.commitment) == Ordering::Less && bytes_order(
        b.commitment,
        c.commitment,
    ) == Ordering::Less {
        lemma_bytes_order_transitive(a.commitment, b.commitment, c.commitment);
    }
}

/// The order of the outputs is total: two outputs are equal in it exactly
/// where they are the same, one comes before another exactly where the other
/// comes after it, and coming before carries over.
pub proof fn lemma_output_order_total(
    a: TransactionOutputView,
    b: TransactionOutputView,
    c: TransactionOutputView,
)
    ensures
        output_order(a, b) == Ordering::Equal <==> a == b,
        output_order(a, b) == Ordering::Less <==> output_order(b, a) == Ordering::Greater,
        output_order(a, b) == Ordering::Less && output_order(b, c) == Ordering::Less
            ==> output_order(a, c) == Ordering::Less,
{
    lemma_bytes_order_equal(a.commitment, b.commitment);
    lemma_bytes_order_equal(b.commitment, c.commitment);
    lemma_bytes_order_equal(a.proof, b.proof);
    lemma_bytes_order_equal(b.proof, c.proof);
    lemma_bytes_order_flips(a.commitment, b.commitment);
    lemma_bytes_order_flips(a.proof, b.proof);
    if bytes_order(a.commitment, b.commitment) == Ordering::Less && bytes_order(
        b.commitment,
        c.commitment,
    ) == Ordering::Less {
        lemma_bytes_order_transitive(a.commitment, b.commitment, c.commitment);
    }
    if bytes_order(a.proof, b.proof) == Ordering::Less && bytes_order(b.proof, c.proof)
        == Ordering::Less {
        lemma_bytes_order_transitive(a.proof, b.proof, c.proof);
    }
}

/// The order of the kernels is total: two kernels are equal in it exactly
/// where they are the same, one comes before another exactly where the other
/// comes after it, and coming before carries over.
pub proof fn lemma_kernel_order_total(
    a: TransactionKernelView,
    b: TransactionKernelView,
    c: TransactionKernelView,
)
    ensures
        kernel_order(a, b) == Ordering::Equal <==> a == b,
        kernel_order(a, b) == Ordering::Less <==> kernel_order(b, a) == Ordering::Greater,
        kernel_order(a, b) == Ordering::Less && kernel_order(b, c) == Ordering::Less
            ==> kernel_order(a, c) == Ordering::Less,
{
    lemma_bytes_order_equal(a.excess, b.excess);
    lemma_bytes_order_equal(b.excess, c.excess);
    lemma_bytes_order_equal(a.excess_sig.public_nonce, b.excess_sig.public_nonce);
    lemma_bytes_order_equal(b.excess_sig.public_nonce, c.excess_sig.public_nonce);
    lemma_bytes_order_equal(a.excess_sig.signature, b.excess_sig.signature);
    lemma_bytes_order_equal(b.excess_sig.signature, c.excess_sig.signature);
    lemma_bytes_order_flips(a.excess, b.excess);
    lemma_bytes_order_flips(a.excess_sig.public_nonce, b.excess_sig.public_nonce);
    lemma_bytes_order_flips(a.excess_sig.signature, b.excess_sig.signature);
    if bytes_order(a.excess, b.excess) == Ordering::Less && bytes_order(b.excess, c.excess)
        == Ordering::Less {
        lemma_bytes_order_transitive(a.excess, b.excess, c.excess);
    }
    if bytes_order(a.excess_sig.public_nonce, b.excess_sig.public_nonce) == Ordering::Less
        && bytes_order(b.excess_sig.public_nonce, c.excess_sig.public_nonce) == Ordering::Less {
        lemma_bytes_order_transitive(
            a.excess_sig.public_nonce,
            b.excess_sig.public_nonce,
            c.excess_sig.public_nonce,
        );
    }
    if bytes_order(a.excess_sig.signature, b.excess_sig.signature) == Ordering::Less
        && bytes_order(b.excess_sig.signature, c.excess_sig.signature) == Ordering::Less {
        lemma_bytes_order_transitive(
            a.excess_sig.signature,
            b.excess_sig.signature,
            c.excess_sig.signature,
        );
    }
}

//-------------------------------------------- the comparisons that run -----------------------------------------//

/// The order of two numbers.
pub fn order_of_numbers(a: u64, b: u64) -> (o: Ordering)
    ensures
        o == number_order(a, b),
{
    if a < b {
        Ordering::Less
    } else if a > b {
        Ordering::Greater
    } else {
        Ordering::Equal
    }
}

/// The order of two bytes.
pub fn order_of_a_byte(a: u8, b: u8) -> (o: Ordering)
    ensures
        o == byte_order(a, b),
{
    if a < b {
        Ordering::Less
    } else if a > b {
        Ordering::Greater
    } else {
        Ordering::Equal
    }
}

/// The order of two byte strings.
pub fn order_of_bytes(a: &[u8], b: &[u8]) -> (o: Ordering)
    ensures
        o == bytes_order(a@, b@),
{
    let mut i: usize = 0;
    let ghost mut n: int = 0;
    assert(a@.skip(0) =~= a@);
    assert(b@.skip(0) =~= b@);
    while i < a.len() && i < b.len()
        invariant
            n == i,
            i <= a.len(),
            i <= b.len(),
            bytes_order(a@, b@) == bytes_order(a@.skip(n), b@.skip(n)),
        decreases a.len() - i,
    {
        if a[i] < b[i] {
            return Ordering::Less;
        }
        if a[i] > b[i] {
            return Ordering::Greater;
        }
        proof {
            assert(a@.skip(n).drop_first() =~= a@.skip(n + 1));
            assert(b@.skip(n).drop_first() =~= b@.skip(n + 1));
            n = n + 1;
        }
        i += 1;
    }
    if i < b.len() {
        Ordering::Less
    } else if i < a.len() {
        Ordering::Greater
    } else {
        Ordering::Equal
    }
}

/// The order by a first field and then a second.
pub fn order_and_after(first: Ordering, second: Ordering) -> (o: Ordering)
    ensures
        o == and_after(first, second),
{
    match first {
        Ordering::Equal => second,
        Ordering::Less => Ordering::Less,
        Ordering::Greater => Ordering::Greater,
    }
}

impl PartialOrd for PublicKey {
    fn partial_cmp(&self, other: &PublicKey) -> (o: Option<Ordering>) {
        Some(order_of_bytes(self.as_bytes().as_slice(), other.as_bytes().as_slice()))
    }
}

impl PartialOrdSpecImpl for PublicKey {
    open spec fn obeys_partial_cmp_spec() -> bool {
        true
    }

    open spec fn partial_cmp_spec(&self, other: &PublicKey) -> Option<Ordering> {
        Some(bytes_order(self@, other@))
    }
}

impl PartialOrd for Commitment {
    fn partial_cmp(&self, other: &Commitment) -> (o: Option<Ordering>) {
        Some(order_of_bytes(self.as_bytes().as_slice(), other.as_bytes().as_slice()))
    }
}

impl PartialOrdSpecImpl for Commitment {
    open spec fn obeys_partial_cmp_spec() -> bool {
        true
    }

    open spec fn partial_cmp_spec(&self, other: &Commitment) -> Option<Ordering> {
        Some(bytes_order(self@, other@))
    }
}

impl PartialOrd for Signature {
    fn partial_cmp(&self, other: &Signature) -> (o: Option<Ordering>) {
        Some(order_of_signatures(self, other))
    }
}

impl PartialOrdSpecImpl for Signature {
    open spec fn obeys_partial_cmp_spec() -> bool {
        true
    }

    open spec fn partial_cmp_spec(&self, other: &Signature) -> Option<Ordering> {
        Some(signature_order(self@, other@))
    }
}

impl PartialOrd for TransactionInput {
    fn partial_cmp(&self, other: &TransactionInput) -> (o: Option<Ordering>) {
        Some(
            order_and_after(
                order_of_a_byte(self.features.bits(), other.features.bits()),
                order_of_bytes(
                    self.commitment.as_bytes().as_slice(),
                    other.commitment.as_bytes().as_slice(),
                ),
            ),
        )
    }
}

impl PartialOrdSpecImpl for TransactionInput {
    open spec fn obeys_partial_cmp_spec() -> bool {
        true
    }

    open spec fn partial_cmp_spec(&self, other: &TransactionInput) -> Option<Ordering> {
        Some(input_order(self@, other@))
    }
}

impl PartialOrd for TransactionOutput {
    fn partial_cmp(&self, other: &TransactionOutput) -> (o: Option<Ordering>) {
        Some(
            order_and_after(
                order_of_a_byte(self.features.bits(), other.features.bits()),
                order_and_after(
                    order_of_bytes(
                        self.commitment.as_bytes().as_slice(),
                        other.commitment.as_bytes().as_slice(),
                    ),
                    order_of_bytes(self.proof.as_slice(), other.proof.as_slice()),
                ),
            ),
        )
    }
}

impl PartialOrdSpecImpl for TransactionOutput {
    open spec fn obeys_partial_cmp_spec() -> bool {
        true
    }

    open spec fn partial_cmp_spec(&self, other: &TransactionOutput) -> Option<Ordering> {
        Some(output_order(self@, other@))
    }
}

/// The order of two signatures.
fn order_of_signatures(a: &Signature, b: &Signature) -> (o: Ordering)
    ensures
        o == signature_order(a@, b@),
{
    order_and_after(
        order_of_bytes(
            a.get_public_nonce().as_bytes().as_slice(),
            b.get_public_nonce().as_bytes().as_slice(),
        ),
        order_of_bytes(
            a.get_signature().as_bytes().as_slice(),
            b.get_signature().as_bytes().as_slice(),
        ),
    )
}

impl PartialOrd for TransactionKernel {
    fn partial_cmp(&self, other: &TransactionKernel) -> (o: Option<Ordering>) {
        Some(
            order_and_after(
                order_of_a_byte(self.features.bits(), other.features.bits()),
                order_and_after(
                    order_of_numbers(self.fee, other.fee),
                    order_and_after(
                        order_of_numbers(self.lock_height, other.lock_height),
                        order_and_after(
                            order_of_bytes(
                                self.excess.as_bytes().as_slice(),
                                other.excess.as_bytes().as_slice(),
                            ),
                            order_of_signatures(&self.excess_sig, &other.excess_sig),
                        ),
                    ),
                ),
            ),
        )
    }
}

impl PartialOrdSpecImpl for TransactionKernel {
    open spec fn obeys_partial_cmp_spec() -> bool {
        true
    }

    open spec fn partial_cmp_spec(&self, other: &TransactionKernel) -> Option<Ordering> {
        Some(kernel_order(self@, other@))
    }
}

} // verus!
