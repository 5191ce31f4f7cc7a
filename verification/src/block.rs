//! The body that transactions and blocks share: inputs, outputs and kernels.

use crate::transaction::TransactionError;
use crate::transaction::TransactionInput;
use crate::transaction::TransactionInputView;
use crate::transaction::TransactionKernel;
use crate::transaction::TransactionKernelView;
use crate::transaction::TransactionOutput;
use crate::transaction::TransactionOutputView;
use vstd::prelude::*;

verus! {

/// The inputs, outputs and kernels of a transaction or a block, in the order
/// in which they were added.
pub struct AggregateBody {
    /// The outputs that are spent.
    pub inputs: Vec<TransactionInput>,
    /// The outputs that are created.
    pub outputs: Vec<TransactionOutput>,
    /// The kernels, each with an excess and its signature.
    pub kernels: Vec<TransactionKernel>,
}

/// What an aggregate body is in contracts.
pub struct AggregateBodyView {
    pub inputs: Seq<TransactionInputView>,
    pub outputs: Seq<TransactionOutputView>,
    pub kernels: Seq<TransactionKernelView>,
}

impl View for AggregateBody {
    type V = AggregateBodyView;

    open spec fn view(&self) -> AggregateBodyView {
        AggregateBodyView {
            inputs: self.inputs@.map_values(|i: TransactionInput| i@),
            outputs: self.outputs@.map_values(|o: TransactionOutput| o@),
            kernels: self.kernels@.map_values(|k: TransactionKernel| k@),
        }
    }
}

/// Whether the excess signature of every kernel is valid.
pub open spec fn signatures_valid(kernels: Seq<TransactionKernelView>) -> bool {
    forall|i: int| 0 <= i < kernels.len() ==> (#[trigger] kernels[i]).signature_valid()
}

impl AggregateBody {
    /// A body without inputs, outputs or kernels.
    pub fn empty() -> (body: AggregateBody)
        ensures
            body.inputs@.len() == 0,
            body.outputs@.len() == 0,
            body.kernels@.len() == 0,
    {
        AggregateBody { inputs: Vec::new(), outputs: Vec::new(), kernels: Vec::new() }
    }

    /// The body of the given inputs, outputs and kernels.
    pub fn new(
        inputs: Vec<TransactionInput>,
        outputs: Vec<TransactionOutput>,
        kernels: Vec<TransactionKernel>,
    ) -> (body: AggregateBody)
        ensures
            body.inputs == inputs,
            body.outputs == outputs,
            body.kernels == kernels,
    {
        AggregateBody { inputs, outputs, kernels }
    }

    /// Adds an input at the end.
    pub fn add_input(&mut self, input: TransactionInput)
        ensures
            final(self).inputs@ == old(self).inputs@.push(input),
            final(self).outputs == old(self).outputs,
            final(self).kernels == old(self).kernels,
    {
        self.inputs.push(input);
    }

    /// Moves the given inputs to the end of the body's and leaves `inputs`
    /// empty.
    pub fn add_inputs(&mut self, inputs: &mut Vec<TransactionInput>)
        ensures
            final(self).inputs@ == old(self).inputs@ + old(inputs)@,
            final(inputs)@.len() == 0,
            final(self).outputs == old(self).outputs,
            final(self).kernels == old(self).kernels,
    {
        self.inputs.append(inputs);
    }

    /// Adds an output at the end.
    pub fn add_output(&mut self, output: TransactionOutput)
        ensures
            final(self).outputs@ == old(self).outputs@.push(output),
            final(self).inputs == old(self).inputs,
            final(self).kernels == old(self).kernels,
    {
        self.outputs.push(output);
    }

    /// Moves the given outputs to the end of the body's and leaves `outputs`
    /// empty.
    pub fn add_outputs(&mut self, outputs: &mut Vec<TransactionOutput>)
        ensures
            final(self).outputs@ == old(self).outputs@ + old(outputs)@,
            final(outputs)@.len() == 0,
            final(self).inputs == old(self).inputs,
            final(self).kernels == old(self).kernels,
    {
        self.outputs.append(outputs);
    }

    /// Adds a kernel at the end.
    pub fn add_kernel(&mut self, kernel: TransactionKernel)
        ensures
            final(self).kernels@ == old(self).kernels@.push(kernel),
            final(self).inputs == old(self).inputs,
            final(self).outputs == old(self).outputs,
    {
        self.kernels.push(kernel);
    }

    /// Makes the given kernel the only kernel of the body.
    pub fn set_kernel(&mut self, kernel: TransactionKernel)
        ensures
            final(self).kernels@ == seq![kernel],
            final(self).inputs == old(self).inputs,
            final(self).outputs == old(self).outputs,
    {
        let mut kernels: Vec<TransactionKernel> = Vec::new();
        kernels.push(kernel);
        self.kernels = kernels;
    }

    /// Checks the excess signature of every kernel, and stops at the first
    /// that is not valid.
    pub fn verify_kernel_signatures(&self) -> (checked: Result<(), TransactionError>)
        ensures
            checked is Ok <==> signatures_valid(self@.kernels),
            checked matches Err(e) ==> e == TransactionError::InvalidSignatureError,
    {
        let mut i: usize = 0;
        while i < self.kernels.len()
            invariant
                i <= self.kernels.len(),
                forall|j: int| 0 <= j < i ==> (#[trigger] self@.kernels[j]).signature_valid(),
            decreases self.kernels.len() - i,
        {
            match self.kernels[i].verify_signature() {
                Ok(()) => {},
                Err(e) => {
                    assert(!self@.kernels[i as int].signature_valid());
                    return Err(e);
                },
            }
            i += 1;
        }
        Ok(())
    }
}

} // verus!
