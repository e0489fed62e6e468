//! Short constructors for AD values and vectors of them.

pub mod val;
pub mod var;

use vstd::prelude::*;
use crate::ad::{constant_model, variable_model, Ad};
use crate::scalar::Real;

verus! {

/// The single variable at `value`.
pub fn ad<T: Real>(value: T) -> (r: Ad<T, 1>)
    ensures
        r@ == variable_model(value, 0, 1),
{
    Ad::active_scalar(value)
}

/// The `L` variables at `values`: entry `k` is variable number `k`.
pub fn vec<T: Real, const L: usize>(values: &[T]) -> (r: Vec<Ad<T, L>>)
    requires
        values@.len() == L,
    ensures
        r@.len() == L,
        forall|k: int|
            0 <= k < L ==> #[trigger] r@[k]@ == variable_model(values@[k], k, L as nat),
{
    Ad::active_from_slice(values)
}

/// The constant `value` with respect to `N` variables.
pub fn val<T: Real, const N: usize>(value: T) -> (r: Ad<T, N>)
    ensures
        r@ == constant_model(value, N as nat),
{
    Ad::inactive_scalar(value)
}

/// Constants for each of `values`, with respect to `N` variables.
pub fn valvec<T: Real, const N: usize>(values: &[T]) -> (r: Vec<Ad<T, N>>)
    requires
        values@.len() == N,
    ensures
        r@.len() == N,
        forall|k: int| 0 <= k < N ==> #[trigger] r@[k]@ == constant_model(values@[k], N as nat),
{
    Ad::inactive_from_slice(values)
}

} // verus!
