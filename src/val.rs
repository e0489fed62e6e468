use vstd::prelude::*;
use crate::scalar::Real;

verus! {

/// A number type that carries no information: every operation gives the
/// same value back. It exercises the generic code paths without arithmetic.
#[derive(Debug, Clone, Copy, PartialEq, Eq)]
pub struct Val {}

impl Real for Val {
    open spec fn zero_spec() -> Self {
        Val {}
    }

    open spec fn one_spec() -> Self {
        Val {}
    }

    open spec fn from_i32_spec(n: i32) -> Self {
        Val {}
    }

    open spec fn lt_spec(self, o: Self) -> bool {
        false
    }

    open spec fn le_spec(self, o: Self) -> bool {
        true
    }

    open spec fn is_zero_spec(self) -> bool {
        true
    }

    open spec fn powi_spec(self, n: i32) -> Self {
        Val {}
    }

    open spec fn add_spec(self, o: Self) -> Self {
        Val {}
    }

    open spec fn sub_spec(self, o: Self) -> Self {
        Val {}
    }

    open spec fn mul_spec(self, o: Self) -> Self {
        Val {}
    }

    open spec fn div_spec(self, o: Self) -> Self {
        Val {}
    }

    open spec fn powf_spec(self, o: Self) -> Self {
        Val {}
    }

    open spec fn log_spec(self, o: Self) -> Self {
        Val {}
    }

    open spec fn atan2_spec(self, o: Self) -> Self {
        Val {}
    }

    open spec fn neg_spec(self) -> Self {
        Val {}
    }

    open spec fn abs_spec(self) -> Self {
        Val {}
    }

    open spec fn sqrt_spec(self) -> Self {
        Val {}
    }

    open spec fn exp_spec(self) -> Self {
        Val {}
    }

    open spec fn ln_spec(self) -> Self {
        Val {}
    }

    open spec fn log2_spec(self) -> Self {
        Val {}
    }

    open spec fn log10_spec(self) -> Self {
        Val {}
    }

    open spec fn sin_spec(self) -> Self {
        Val {}
    }

    open spec fn cos_spec(self) -> Self {
        Val {}
    }

    open spec fn tan_spec(self) -> Self {
        Val {}
    }

    open spec fn asin_spec(self) -> Self {
        Val {}
    }

    open spec fn acos_spec(self) -> Self {
        Val {}
    }

    open spec fn atan_spec(self) -> Self {
        Val {}
    }

    open spec fn sinh_spec(self) -> Self {
        Val {}
    }

    open spec fn cosh_spec(self) -> Self {
        Val {}
    }

    open spec fn tanh_spec(self) -> Self {
        Val {}
    }

    open spec fn asinh_spec(self) -> Self {
        Val {}
    }

    open spec fn acosh_spec(self) -> Self {
        Val {}
    }

    open spec fn atanh_spec(self) -> Self {
        Val {}
    }

    fn zero() -> (r: Self) {
        Val {}
    }

    fn one() -> (r: Self) {
        Val {}
    }

    fn from_i32(n: i32) -> (r: Self) {
        Val {}
    }

    fn lt(&self, o: &Self) -> (r: bool) {
        false
    }

    fn le(&self, o: &Self) -> (r: bool) {
        true
    }

    fn is_zero(&self) -> (r: bool) {
        true
    }

    fn powi(&self, n: i32) -> (r: Self) {
        Val {}
    }

    fn add(&self, o: &Self) -> (r: Self) {
        Val {}
    }

    fn sub(&self, o: &Self) -> (r: Self) {
        Val {}
    }

    fn mul(&self, o: &Self) -> (r: Self) {
        Val {}
    }

    fn div(&self, o: &Self) -> (r: Self) {
        Val {}
    }

    fn powf(&self, o: &Self) -> (r: Self) {
        Val {}
    }

    fn log(&self, o: &Self) -> (r: Self) {
        Val {}
    }

    fn atan2(&self, o: &Self) -> (r: Self) {
        Val {}
    }

    fn neg(&self) -> (r: Self) {
        Val {}
    }

    fn abs(&self) -> (r: Self) {
        Val {}
    }

    fn sqrt(&self) -> (r: Self) {
        Val {}
    }

    fn exp(&self) -> (r: Self) {
        Val {}
    }

    fn ln(&self) -> (r: Self) {
        Val {}
    }

    fn log2(&self) -> (r: Self) {
        Val {}
    }

    fn log10(&self) -> (r: Self) {
        Val {}
    }

    fn sin(&self) -> (r: Self) {
        Val {}
    }

    fn cos(&self) -> (r: Self) {
        Val {}
    }

    fn tan(&self) -> (r: Self) {
        Val {}
    }

    fn asin(&self) -> (r: Self) {
        Val {}
    }

    fn acos(&self) -> (r: Self) {
        Val {}
    }

    fn atan(&self) -> (r: Self) {
        Val {}
    }

    fn sinh(&self) -> (r: Self) {
        Val {}
    }

    fn cosh(&self) -> (r: Self) {
        Val {}
    }

    fn tanh(&self) -> (r: Self) {
        Val {}
    }

    fn asinh(&self) -> (r: Self) {
        Val {}
    }

    fn acosh(&self) -> (r: Self) {
        Val {}
    }

    fn atanh(&self) -> (r: Self) {
        Val {}
    }
}

} // verus!
