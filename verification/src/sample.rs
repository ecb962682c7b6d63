use vstd::prelude::*;
use crate::errors::VisError;

verus! {

/// Relies on rand::random_range over the half-open range `0..n`: the draw
/// is uniform over that range, so the result is always below `n`. The
/// call panics only on an empty range, which the precondition excludes.
/// Nothing is promised about which index comes back: two draws on the
/// same `n` may differ.
#[verifier::external_body]
fn draw_uniform(n: usize) -> (r: usize)
    requires
        1 <= n,
    ensures
        r < n,
{
    rand::random_range(0..n)
}

/// Pick the sample to visualize: one index drawn uniformly from the batch
/// dimension of size `n`. An empty batch is rejected; otherwise the chosen
/// index is always in bounds.
pub fn select_sample(n: usize) -> (r: Result<usize, VisError>)
    ensures
        n == 0 ==> r == Err::<usize, VisError>(VisError::InvalidInputError),
        n >= 1 ==> (r matches Ok(i) && i < n),
{
    if n == 0 {
        Err(VisError::InvalidInputError)
    } else {
        Ok(draw_uniform(n))
    }
}

} // verus!
