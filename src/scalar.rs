use vstd::prelude::*;

verus! {

/// The number type that AD values are built over.
///
/// Each operation is modelled by a spec function of the same name with a
/// `_spec` suffix, which every implementing type defines, and the executable
/// operation returns exactly what its model says. What is proved over a
/// generic `T: Real` uses nothing of these models but that they are
/// functions of their operands; so it holds of any type whose operations are
/// deterministic and whose models are those operations (a machine float
/// whose `add_spec` is its addition, say).
pub trait Real: Sized + Copy {
    /// The additive identity.
    spec fn zero_spec() -> Self;

    /// The multiplicative identity.
    spec fn one_spec() -> Self;

    /// The number that stands for the integer `n`.
    spec fn from_i32_spec(n: i32) -> Self;

    /// `self < o`.
    spec fn lt_spec(self, o: Self) -> bool;

    /// `self <= o`.
    spec fn le_spec(self, o: Self) -> bool;

    /// Whether `self` is zero (of either sign).
    spec fn is_zero_spec(self) -> bool;

    /// `self` raised to an integer power.
    spec fn powi_spec(self, n: i32) -> Self;

    /// Sum.
    spec fn add_spec(self, o: Self) -> Self;

    /// Difference.
    spec fn sub_spec(self, o: Self) -> Self;

    /// Product.
    spec fn mul_spec(self, o: Self) -> Self;

    /// Quotient.
    spec fn div_spec(self, o: Self) -> Self;

    /// `self` raised to a real power.
    spec fn powf_spec(self, o: Self) -> Self;

    /// Logarithm of `self` in the base `o`.
    spec fn log_spec(self, o: Self) -> Self;

    /// Four-quadrant arctangent of `self` (the ordinate) over `o` (the abscissa).
    spec fn atan2_spec(self, o: Self) -> Self;

    /// Negation.
    spec fn neg_spec(self) -> Self;

    /// Absolute value.
    spec fn abs_spec(self) -> Self;

    /// Square root.
    spec fn sqrt_spec(self) -> Self;

    /// Exponential.
    spec fn exp_spec(self) -> Self;

    /// Natural logarithm.
    spec fn ln_spec(self) -> Self;

    /// Base-2 logarithm.
    spec fn log2_spec(self) -> Self;

    /// Base-10 logarithm.
    spec fn log10_spec(self) -> Self;

    /// Sine.
    spec fn sin_spec(self) -> Self;

    /// Cosine.
    spec fn cos_spec(self) -> Self;

    /// Tangent.
    spec fn tan_spec(self) -> Self;

    /// Arcsine.
    spec fn asin_spec(self) -> Self;

    /// Arccosine.
    spec fn acos_spec(self) -> Self;

    /// Arctangent.
    spec fn atan_spec(self) -> Self;

    /// Hyperbolic sine.
    spec fn sinh_spec(self) -> Self;

    /// Hyperbolic cosine.
    spec fn cosh_spec(self) -> Self;

    /// Hyperbolic tangent.
    spec fn tanh_spec(self) -> Self;

    /// Inverse hyperbolic sine.
    spec fn asinh_spec(self) -> Self;

    /// Inverse hyperbolic cosine.
    spec fn acosh_spec(self) -> Self;

    /// Inverse hyperbolic tangent.
    spec fn atanh_spec(self) -> Self;

    fn zero() -> (r: Self)
        ensures
            r == Self::zero_spec(),
    ;

    fn one() -> (r: Self)
        ensures
            r == Self::one_spec(),
    ;

    fn from_i32(n: i32) -> (r: Self)
        ensures
            r == Self::from_i32_spec(n),
    ;

    fn lt(&self, o: &Self) -> (r: bool)
        ensures
            r == self.lt_spec(*o),
    ;

    fn le(&self, o: &Self) -> (r: bool)
        ensures
            r == self.le_spec(*o),
    ;

    fn is_zero(&self) -> (r: bool)
        ensures
            r == self.is_zero_spec(),
    ;

    fn powi(&self, n: i32) -> (r: Self)
        ensures
            r == self.powi_spec(n),
    ;

    fn add(&self, o: &Self) -> (r: Self)
        ensures
            r == self.add_spec(*o),
    ;

    fn sub(&self, o: &Self) -> (r: Self)
        ensures
            r == self.sub_spec(*o),
    ;

    fn mul(&self, o: &Self) -> (r: Self)
        ensures
            r == self.mul_spec(*o),
    ;

    fn div(&self, o: &Self) -> (r: Self)
        ensures
            r == self.div_spec(*o),
    ;

    fn powf(&self, o: &Self) -> (r: Self)
        ensures
            r == self.powf_spec(*o),
    ;

    fn log(&self, o: &Self) -> (r: Self)
        ensures
            r == self.log_spec(*o),
    ;

    fn atan2(&self, o: &Self) -> (r: Self)
        ensures
            r == self.atan2_spec(*o),
    ;

    fn neg(&self) -> (r: Self)
        ensures
            r == self.neg_spec(),
    ;

    fn abs(&self) -> (r: Self)
        ensures
            r == self.abs_spec(),
    ;

    fn sqrt(&self) -> (r: Self)
        ensures
            r == self.sqrt_spec(),
    ;

    fn exp(&self) -> (r: Self)
        ensures
            r == self.exp_spec(),
    ;

    fn ln(&self) -> (r: Self)
        ensures
            r == self.ln_spec(),
    ;

    fn log2(&self) -> (r: Self)
        ensures
            r == self.log2_spec(),
    ;

    fn log10(&self) -> (r: Self)
        ensures
            r == self.log10_spec(),
    ;

    fn sin(&self) -> (r: Self)
        ensures
            r == self.sin_spec(),
    ;

    fn cos(&self) -> (r: Self)
        ensures
            r == self.cos_spec(),
    ;

    fn tan(&self) -> (r: Self)
        ensures
            r == self.tan_spec(),
    ;

    fn asin(&self) -> (r: Self)
        ensures
            r == self.asin_spec(),
    ;

    fn acos(&self) -> (r: Self)
        ensures
            r == self.acos_spec(),
    ;

    fn atan(&self) -> (r: Self)
        ensures
            r == self.atan_spec(),
    ;

    fn sinh(&self) -> (r: Self)
        ensures
            r == self.sinh_spec(),
    ;

    fn cosh(&self) -> (r: Self)
        ensures
            r == self.cosh_spec(),
    ;

    fn tanh(&self) -> (r: Self)
        ensures
            r == self.tanh_spec(),
    ;

    fn asinh(&self) -> (r: Self)
        ensures
            r == self.asinh_spec(),
    ;

    fn acosh(&self) -> (r: Self)
        ensures
            r == self.acosh_spec(),
    ;

    fn atanh(&self) -> (r: Self)
        ensures
            r == self.atanh_spec(),
    ;
}

} // verus!
