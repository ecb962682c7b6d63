use vstd::prelude::*;
use crate::errors::VisError;

verus! {

/// The shape of one series array: `n` samples along the batch dimension,
/// `t` time steps, `c` channels.
#[derive(Clone, Copy, Debug, PartialEq, Eq, Structural)]
pub struct Shape3 {
    pub n: usize,
    pub t: usize,
    pub c: usize,
}

impl Shape3 {
    /// A shape the pipeline can render from: a non-empty batch and at
    /// least one channel.
    pub open spec fn renderable(self) -> bool {
        self.n >= 1 && self.c >= 1
    }
}

/// Check that the true and predicted arrays can be sliced with the same
/// indices: their shapes must be identical, the batch must be non-empty
/// and there must be at least one channel. Exactly the shapes outside
/// that domain are rejected.
pub fn validate_shapes(true_shape: Shape3, pred_shape: Shape3) -> (r: Result<(), VisError>)
    ensures
        r is Ok <==> (true_shape == pred_shape && true_shape.renderable()),
        r is Err ==> r == Err::<(), VisError>(VisError::InvalidInputError),
{
    if true_shape == pred_shape && true_shape.n >= 1 && true_shape.c >= 1 {
        Ok(())
    } else {
        Err(VisError::InvalidInputError)
    }
}

} // verus!
