use vstd::prelude::*;

use crate::tensor::lemma_shape_product_cons;
use crate::tensor::lemma_shape_product_pair;
use crate::tensor::checked_shape_product;
use crate::tensor::shape_product;
use crate::tensor::Tensor;
use crate::types::CoreError;
use crate::types::FlattenLayer;

verus! {

/// The shape a flatten layer accepts on its forward pass: the batch
/// dimension followed by the declared trailing dimensions.
pub open spec fn input_shape_of(batch: usize, trailing: Seq<usize>) -> Seq<usize> {
    seq![batch] + trailing
}

/// The shape a flatten layer produces on its forward pass: the batch
/// dimension followed by the trailing dimensions collapsed into one.
pub open spec fn output_shape_of(batch: usize, trailing: Seq<usize>) -> Seq<usize> {
    seq![batch, shape_product(trailing) as usize]
}

/// What a forward pass returns for a given layer state and input: the
/// flattened shape with the elements unchanged and in the same order, or
/// a shape disagreement.
pub open spec fn spec_forward<T>(
    batch: usize,
    trailing: Seq<usize>,
    shape: Seq<usize>,
    data: Seq<T>,
) -> Result<(Seq<usize>, Seq<T>), CoreError> {
    if shape == input_shape_of(batch, trailing) {
        Ok((output_shape_of(batch, trailing), data))
    } else {
        Err(CoreError::ShapeMismatch)
    }
}

/// What a backward pass returns for a given layer state and gradient:
/// stale state when no forward pass preceded it, otherwise the gradient
/// reshaped back to the input shape with its values unchanged, or a
/// shape disagreement.
pub open spec fn spec_backward<T>(
    batch: usize,
    trailing: Seq<usize>,
    ready: bool,
    shape: Seq<usize>,
    data: Seq<T>,
) -> Result<(Seq<usize>, Seq<T>), CoreError> {
    if !ready {
        Err(CoreError::StaleState)
    } else if shape == output_shape_of(batch, trailing) {
        Ok((input_shape_of(batch, trailing), data))
    } else {
        Err(CoreError::ShapeMismatch)
    }
}

/// A reshape-only layer: its forward pass collapses every dimension after
/// the batch dimension into a single flat one, and its backward pass
/// restores the original dimensions. It performs no arithmetic, owns no
/// learnable parameters, and moves every element through unchanged.
pub struct FlattenCPULayer {
    batch: usize,
    trailing: Vec<usize>,
    flat: usize,
    ready: bool,
}

impl FlattenCPULayer {
    /// The batch size the layer currently expects.
    pub closed spec fn batch_size(&self) -> usize {
        self.batch
    }

    /// The declared input dimensions after the batch dimension.
    pub closed spec fn trailing_shape(&self) -> Seq<usize> {
        self.trailing@
    }

    /// Whether a forward pass has succeeded in the current batch cycle,
    /// so that a backward pass may follow.
    pub closed spec fn ready_for_backward(&self) -> bool {
        self.ready
    }

    /// Well-formedness: the batch size is positive, at least one trailing
    /// dimension is declared, and the cached flat width is exactly the
    /// product of the trailing dimensions.
    pub closed spec fn wf(&self) -> bool {
        &&& self.batch >= 1
        &&& self.trailing@.len() >= 1
        &&& self.flat as nat == shape_product(self.trailing@)
    }

    /// Constructs a flatten layer from its configuration and the shape of
    /// the tensors it will receive: the batch size first, then at least
    /// one trailing dimension. The trailing element count must be
    /// addressable on this machine.
    pub fn new(_config: FlattenLayer, size: Vec<usize>) -> (r: FlattenCPULayer)
        requires
            size@.len() >= 2,
            size@[0] >= 1,
            shape_product(size@.skip(1)) <= usize::MAX,
        ensures
            r.wf(),
            r.batch_size() == size@[0],
            r.trailing_shape() == size@.skip(1),
            !r.ready_for_backward(),
    {
        let batch: usize = size[0];
        let mut trailing: Vec<usize> = Vec::new();
        let mut i: usize = 1;
        while i < size.len()
            invariant
                1 <= i <= size@.len(),
                trailing@ == size@.subrange(1, i as int),
            decreases size@.len() - i,
        {
            trailing.push(size[i]);
            proof {
                assert(size@.subrange(1, i + 1) =~= size@.subrange(1, i as int).push(
                    size@[i as int],
                ));
            }
            i = i + 1;
        }
        proof {
            assert(trailing@ =~= size@.skip(1));
        }
        let flat: usize = match checked_shape_product(&trailing) {
            Some(p) => p,
            None => {
                // unreachable: the precondition makes the trailing count addressable
                proof {
                    assert(false);
                }
                0
            },
        };
        FlattenCPULayer { batch, trailing, flat, ready: false }
    }

    /// Resizes the layer for a new batch and starts a fresh batch cycle.
    /// A batch size of zero is rejected and changes nothing.
    pub fn reset(&mut self, batches: usize) -> (r: Result<(), CoreError>)
        requires
            old(self).wf(),
        ensures
            final(self).wf(),
            final(self).trailing_shape() == old(self).trailing_shape(),
            batches >= 1 ==> r == Ok::<(), CoreError>(()) && final(self).batch_size() == batches
                && !final(self).ready_for_backward(),
            batches == 0 ==> r == Err::<(), CoreError>(CoreError::InvalidBatchSize)
                && final(self).batch_size() == old(self).batch_size()
                && final(self).ready_for_backward() == old(self).ready_for_backward(),
    {
        if batches == 0 {
            Err(CoreError::InvalidBatchSize)
        } else {
            self.batch = batches;
            self.ready = false;
            Ok(())
        }
    }

    /// Forward pass: accepts exactly the tensors shaped as declared, and
    /// returns the same elements in the same order under the flattened
    /// shape. On success the layer is ready for a backward pass; on a
    /// shape disagreement nothing observable changes.
    pub fn forward_propagate<T>(&mut self, inputs: Tensor<T>) -> (r: Result<Tensor<T>, CoreError>)
        requires
            old(self).wf(),
            inputs.wf(),
        ensures
            final(self).wf(),
            final(self).batch_size() == old(self).batch_size(),
            final(self).trailing_shape() == old(self).trailing_shape(),
            ({
                let m = spec_forward(
                    old(self).batch_size(),
                    old(self).trailing_shape(),
                    inputs.shape_spec(),
                    inputs.data_spec(),
                );
                match r {
                    Ok(out) => {
                        &&& m is Ok
                        &&& out.shape_spec() == m->Ok_0.0
                        &&& out.data_spec() == m->Ok_0.1
                        &&& out.wf()
                        &&& final(self).ready_for_backward()
                    },
                    Err(e) => {
                        &&& m is Err
                        &&& e == m->Err_0
                        &&& final(self).ready_for_backward() == old(self).ready_for_backward()
                    },
                }
            }),
    {
        let matched: bool = matches_input_shape(inputs.shape(), self.batch, &self.trailing);
        if !matched {
            return Err(CoreError::ShapeMismatch);
        }
        let (_, data) = inputs.into_parts();
        let mut out_shape: Vec<usize> = Vec::new();
        out_shape.push(self.batch);
        out_shape.push(self.flat);
        proof {
            assert(out_shape@ =~= seq![self.batch, self.flat]);
            lemma_shape_product_pair(self.batch, self.flat);
            lemma_shape_product_cons(self.batch, self.trailing@);
        }
        self.ready = true;
        Ok(Tensor::from_raw(out_shape, data))
    }

    /// Backward pass: requires a forward pass in the same batch cycle,
    /// accepts exactly the gradients shaped like the forward output, and
    /// returns the same values in the same order under the declared input
    /// shape. The layer owns no learnable parameters, so the learning
    /// rate is unused. On success the batch cycle is complete; on a
    /// failure nothing observable changes.
    pub fn backward_propagate<T>(&mut self, d_outputs: Tensor<T>, _rate: T) -> (r: Result<
        Tensor<T>,
        CoreError,
    >)
        requires
            old(self).wf(),
            d_outputs.wf(),
        ensures
            final(self).wf(),
            final(self).batch_size() == old(self).batch_size(),
            final(self).trailing_shape() == old(self).trailing_shape(),
            ({
                let m = spec_backward(
                    old(self).batch_size(),
                    old(self).trailing_shape(),
                    old(self).ready_for_backward(),
                    d_outputs.shape_spec(),
                    d_outputs.data_spec(),
                );
                match r {
                    Ok(out) => {
                        &&& m is Ok
                        &&& out.shape_spec() == m->Ok_0.0
                        &&& out.data_spec() == m->Ok_0.1
                        &&& out.wf()
                        &&& !final(self).ready_for_backward()
                    },
                    Err(e) => {
                        &&& m is Err
                        &&& e == m->Err_0
                        &&& final(self).ready_for_backward() == old(self).ready_for_backward()
                    },
                }
            }),
    {
        if !self.ready {
            return Err(CoreError::StaleState);
        }
        let matched: bool = {
            let s = d_outputs.shape();
            s.len() == 2 && s[0] == self.batch && s[1] == self.flat
        };
        proof {
            if matched {
                assert(d_outputs.shape_spec() =~= output_shape_of(self.batch, self.trailing@));
            } else {
                assert(output_shape_of(self.batch, self.trailing@).len() == 2);
                assert(output_shape_of(self.batch, self.trailing@)[0] == self.batch);
                assert(output_shape_of(self.batch, self.trailing@)[1] == self.flat);
            }
        }
        if !matched {
            return Err(CoreError::ShapeMismatch);
        }
        let (_, data) = d_outputs.into_parts();
        let mut out_shape: Vec<usize> = Vec::new();
        out_shape.push(self.batch);
        let mut i: usize = 0;
        while i < self.trailing.len()
            invariant
                0 <= i <= self.trailing@.len(),
                out_shape@ == seq![self.batch] + self.trailing@.subrange(0, i as int),
            decreases self.trailing@.len() - i,
        {
            out_shape.push(self.trailing[i]);
            proof {
                assert((seq![self.batch] + self.trailing@.subrange(0, i as int)).push(
                    self.trailing@[i as int],
                ) =~= seq![self.batch] + self.trailing@.subrange(0, i + 1));
            }
            i = i + 1;
        }
        proof {
            assert(self.trailing@.subrange(0, self.trailing@.len() as int) =~= self.trailing@);
            assert(out_shape@ == input_shape_of(self.batch, self.trailing@));
            lemma_shape_product_pair(self.batch, self.flat);
            lemma_shape_product_cons(self.batch, self.trailing@);
        }
        self.ready = false;
        Ok(Tensor::from_raw(out_shape, data))
    }
}

/// Decides whether a tensor shape is exactly the batch dimension followed
/// by the declared trailing dimensions.
fn matches_input_shape(shape: &Vec<usize>, batch: usize, trailing: &Vec<usize>) -> (r: bool)
    ensures
        r <==> shape@ == input_shape_of(batch, trailing@),
{
    if shape.len() == 0 {
        return false;
    }
    if shape.len() - 1 != trailing.len() {
        return false;
    }
    if shape[0] != batch {
        return false;
    }
    let mut i: usize = 0;
    while i < trailing.len()
        invariant
            shape@.len() == 1 + trailing@.len(),
            shape@[0] == batch,
            0 <= i <= trailing@.len(),
            forall|j: int| 0 <= j < i ==> shape@[j + 1] == trailing@[j],
        decreases trailing@.len() - i,
    {
        if shape[i + 1] != trailing[i] {
            proof {
                assert(input_shape_of(batch, trailing@)[i + 1] == trailing@[i as int]);
            }
            return false;
        }
        i = i + 1;
    }
    proof {
        assert(shape@ =~= input_shape_of(batch, trailing@));
    }
    true
}

/// Count-preservation law: flattening a shape never changes the number
/// of elements it describes.
pub proof fn lemma_flatten_preserves_count(batch: usize, trailing: Seq<usize>)
    requires
        shape_product(trailing) <= usize::MAX,
    ensures
        shape_product(output_shape_of(batch, trailing)) == shape_product(
            input_shape_of(batch, trailing),
        ),
{
    lemma_shape_product_cons(batch, trailing);
    lemma_shape_product_pair(batch, shape_product(trailing) as usize);
}

/// Round-trip law: for every layer state and every input it accepts, a
/// forward pass followed by a backward pass on any gradient of the
/// forward output's shape yields exactly the input's shape, and both
/// passes move the element values through unchanged and in order — so
/// flattening and then unflattening the forward output itself restores
/// the input exactly.
pub proof fn lemma_forward_backward_round_trip<T>(
    batch: usize,
    trailing: Seq<usize>,
    shape: Seq<usize>,
    data: Seq<T>,
    grad: Seq<T>,
)
    requires
        shape == input_shape_of(batch, trailing),
    ensures
        spec_forward(batch, trailing, shape, data) is Ok,
        spec_forward(batch, trailing, shape, data)->Ok_0.1 == data,
        ({
            let fwd = spec_forward(batch, trailing, shape, data)->Ok_0;
            let bwd = spec_backward(batch, trailing, true, fwd.0, grad);
            &&& bwd is Ok
            &&& bwd->Ok_0.0 == shape
            &&& bwd->Ok_0.1 == grad
        }),
{
}

/// Stale-state law: with no forward pass in the current batch cycle, a
/// backward pass fails with `StaleState`, whatever gradient it is given.
pub proof fn lemma_backward_without_forward_is_stale<T>(
    batch: usize,
    trailing: Seq<usize>,
    shape: Seq<usize>,
    data: Seq<T>,
)
    ensures
        spec_backward::<T>(batch, trailing, false, shape, data) == Err::<
            (Seq<usize>, Seq<T>),
            CoreError,
        >(CoreError::StaleState),
{
}

} // verus!
