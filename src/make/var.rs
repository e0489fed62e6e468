use vstd::prelude::*;
use crate::ad::{variable_model, Ad};
use crate::scalar::Real;

verus! {

/// The single variable at `value`.
pub fn scalar<T: Real>(value: T) -> (r: Ad<T, 1>)
    ensures
        r@ == variable_model(value, 0, 1),
{
    Ad::active_scalar(value)
}

/// The `L` variables at `values`: entry `k` is variable number `k`.
pub fn vector_from_slice<T: Real, const L: usize>(values: &[T]) -> (r: Vec<Ad<T, L>>)
    requires
        values@.len() == L,
    ensures
        r@.len() == L,
        forall|k: int|
            0 <= k < L ==> #[trigger] r@[k]@ == variable_model(values@[k], k, L as nat),
{
    Ad::active_from_slice(values)
}

/// The `L` variables at `values`: entry `k` is variable number `k`.
pub fn vector<T: Real, const L: usize>(values: &Vec<T>) -> (r: Vec<Ad<T, L>>)
    requires
        values@.len() == L,
    ensures
        r@.len() == L,
        forall|k: int|
            0 <= k < L ==> #[trigger] r@[k]@ == variable_model(values@[k], k, L as nat),
{
    Ad::active_vector(values)
}

} // verus!
