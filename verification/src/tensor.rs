//! The dense input tensor of the forecasting engine.

use vstd::prelude::*;

verus! {

/// A rank-3 tensor of shape `(1, steps, width)`: one batch of `steps` time
/// steps with `width` binary32 bit patterns each, held in an `ndarray` array.
///
/// ndarray bounds its array type by a trait of its own, which cannot be
/// declared to the verifier; so the array sits in a private field and the
/// verifier sees the tensor only through `tensor_dim`, `tensor_entries` and
/// the four functions below that call ndarray.
#[verifier::external_body]
#[derive(Debug)]
pub struct InputTensor {
    array: ndarray::Array3<u32>,
}

/// The number of time steps and of features per step of a tensor: the second
/// and third axis of its array. The first axis always has length one.
pub uninterp spec fn tensor_dim(tensor: InputTensor) -> (usize, usize);

/// What a tensor holds: the value at `[0, step, feature]`, keyed by
/// `(step, feature)`.
pub uninterp spec fn tensor_entries(tensor: InputTensor) -> Map<(int, int), u32>;

/// Calls `ndarray::Array3::zeros` with the shape `(1, steps, width)`. The
/// array it returns has that shape and holds zero at every index.
///
/// `zeros` panics where the product of the axis lengths that are not zero
/// overflows `isize`: an empty axis does not excuse an oversized one, so
/// each length is bounded by itself. The buffer of the elements, four bytes
/// each, must fit in `isize` as well. The precondition rules all of that
/// out.
#[verifier::external_body]
pub(crate) fn zeros(steps: usize, width: usize) -> (tensor: InputTensor)
    requires
        steps <= isize::MAX,
        width <= isize::MAX,
        4 * steps * width <= isize::MAX,
    ensures
        tensor_dim(tensor) == (steps, width),
        forall|t: int, f: int|
            0 <= t < steps && 0 <= f < width ==> tensor_entries(tensor).contains_key((t, f))
                && #[trigger] tensor_entries(tensor)[(t, f)] == 0,
{
    InputTensor { array: ndarray::Array3::<u32>::zeros((1, steps, width)) }
}

/// Assigns through ndarray's `IndexMut` at `[0, step, feature]`. The shape
/// stays and only that one element changes. Indexing panics out of bounds,
/// which the precondition rules out.
#[verifier::external_body]
fn put(tensor: &mut InputTensor, step: usize, feature: usize, value: u32)
    requires
        step < tensor_dim(*old(tensor)).0,
        feature < tensor_dim(*old(tensor)).1,
    ensures
        tensor_dim(*final(tensor)) == tensor_dim(*old(tensor)),
        tensor_entries(*final(tensor)) == tensor_entries(*old(tensor)).insert(
            (step as int, feature as int),
            value,
        ),
{
    tensor.array[[0, step, feature]] = value;
}

/// Calls `ndarray::ArrayBase::shape` and copies the slice: the lengths of the
/// three axes, the first of which is one.
#[verifier::external_body]
fn axis_lengths(tensor: &InputTensor) -> (shape: Vec<usize>)
    ensures
        shape@ == seq![1usize, tensor_dim(*tensor).0, tensor_dim(*tensor).1],
{
    tensor.array.shape().to_vec()
}

/// Calls `ndarray::ArrayBase::into_raw_vec_and_offset` and keeps the vector:
/// the elements as the array stores them. Every tensor of this crate is made
/// by `zeros` from a plain shape and so is stored contiguously in row-major
/// order from offset zero: the element at `[0, step, feature]` lies at
/// `step * width + feature`.
#[verifier::external_body]
fn into_elements(tensor: InputTensor) -> (data: Vec<u32>)
    ensures
        data@.len() == tensor_dim(tensor).0 * tensor_dim(tensor).1,
        forall|t: int, f: int|
            0 <= t < tensor_dim(tensor).0 && 0 <= f < tensor_dim(tensor).1 ==> data@[t
                * tensor_dim(tensor).1 + f] == #[trigger] tensor_entries(tensor)[(t, f)],
{
    tensor.array.into_raw_vec_and_offset().0
}

impl InputTensor {
    /// Number of time steps.
    pub open spec fn steps(&self) -> nat {
        tensor_dim(*self).0 as nat
    }

    /// Number of features per time step.
    pub open spec fn width(&self) -> nat {
        tensor_dim(*self).1 as nat
    }

    /// The value of `feature` at time step `step`.
    pub open spec fn at(&self, step: int, feature: int) -> u32 {
        tensor_entries(*self)[(step, feature)]
    }

    /// All values of one time step, in feature order.
    pub open spec fn row(&self, step: int) -> Seq<u32> {
        Seq::new(self.width(), |feature: int| self.at(step, feature))
    }

    /// Writes one time step.
    pub(crate) fn set_row(&mut self, step: usize, values: &[u32])
        requires
            step < old(self).steps(),
            values@.len() == old(self).width(),
        ensures
            final(self).steps() == old(self).steps(),
            final(self).width() == old(self).width(),
            final(self).row(step as int) == values@,
            forall|t: int, f: int| t != step ==> final(self).at(t, f) == old(self).at(t, f),
    {
        let width = values.len();
        let mut feature: usize = 0;
        while feature < width
            invariant
                width == values@.len(),
                feature <= width,
                self.steps() == old(self).steps(),
                self.width() == old(self).width(),
                self.width() == width,
                step < self.steps(),
                forall|f: int| 0 <= f < feature ==> self.at(step as int, f) == values@[f],
                forall|t: int, f: int| t != step ==> self.at(t, f) == old(self).at(t, f),
            decreases width - feature,
        {
            put(self, step, feature, values[feature]);
            feature += 1;
        }
    }

    /// Takes the tensor apart into its shape and its values in row-major
    /// order, the form in which the engine accepts it.
    pub fn into_parts(self) -> (parts: (Vec<usize>, Vec<u32>))
        ensures
            parts.0@ == seq![1usize, self.steps() as usize, self.width() as usize],
            parts.1@.len() == self.steps() * self.width(),
            forall|t: int, f: int|
                0 <= t < self.steps() && 0 <= f < self.width() ==> parts.1@[t * self.width() + f]
                    == #[trigger] self.at(t, f),
    {
        let shape = axis_lengths(&self);
        let data = into_elements(self);
        (shape, data)
    }
}

} // verus!
