use vstd::prelude::*;
use crate::ad::{apply, chain_model, grad_of, Ad, AdError, AdModel, Rule};
use crate::scalar::Real;

verus! {

/// The number that stands for the integer `k`.
pub open spec fn num<T: Real>(k: i32) -> T {
    T::from_i32_spec(k)
}

/// `r` is `Err(Domain)` exactly when `bad` holds, and otherwise holds a value
/// whose model is `m`.
pub open spec fn checked<T: Real, const N: usize>(
    r: Result<Ad<T, N>, AdError>,
    bad: bool,
    m: AdModel<T>,
) -> bool {
    match r {
        Ok(x) => !bad && x@ == m,
        Err(e) => bad && e == AdError::Domain,
    }
}

/// `-a`.
pub open spec fn neg_model<T: Real>(a: AdModel<T>, n: nat) -> AdModel<T> {
    apply(Rule::Negate, a.value.neg_spec(), a, a, Seq::empty(), n)
}

/// `a * a`.
pub open spec fn square_model<T: Real>(a: AdModel<T>, n: nat) -> AdModel<T> {
    apply(Rule::Square(num(2)), a.value.mul_spec(a.value), a, a, Seq::empty(), n)
}

/// `|a|`: the derivatives keep their sign where `a >= 0` and flip it elsewhere.
pub open spec fn abs_model<T: Real>(a: AdModel<T>, n: nat) -> AdModel<T> {
    let sign = if T::zero_spec().le_spec(a.value) {
        T::one_spec()
    } else {
        T::one_spec().neg_spec()
    };
    apply(Rule::ScaleLeft(sign), a.value.abs_spec(), a, a, Seq::empty(), n)
}

/// `sqrt(a)`: `g' = 1 / (2 sqrt a)`, `g'' = -1 / (4 a sqrt a)`.
pub open spec fn sqrt_model<T: Real>(a: AdModel<T>, n: nat) -> AdModel<T> {
    let v = a.value;
    let f = v.sqrt_spec();
    let one = T::one_spec();
    chain_model(
        f,
        one.div_spec(num(2)).div_spec(f),
        one.div_spec(num(4)).neg_spec().div_spec(f.mul_spec(v)),
        a,
        n,
    )
}

/// `a^k`: `g' = k a^(k-1)` and `g'' = k (k-1) a^(k-2)`, each from its own
/// power, and zero where its integer factor is zero (so that `0^1` has the
/// derivatives of `a` and no `0 * inf`).
pub open spec fn powi_model<T: Real>(a: AdModel<T>, k: i32, n: nat) -> AdModel<T> {
    let v = a.value;
    let e = num::<T>(k);
    let d = if k == 0 {
        T::zero_spec()
    } else {
        e.mul_spec(v.powi_spec((k - 1) as i32))
    };
    let d2 = if k == 0 || k == 1 {
        T::zero_spec()
    } else {
        e.mul_spec(e.sub_spec(T::one_spec())).mul_spec(v.powi_spec((k - 2) as i32))
    };
    chain_model(v.powi_spec(k), d, d2, a, n)
}

/// `a^e` for a real `e`: `g' = e a^(e-1)` and `g'' = e (e-1) a^(e-2)`, each
/// from its own power, and zero where `e` or `e - 1` is zero.
pub open spec fn powf_model<T: Real>(a: AdModel<T>, e: T, n: nat) -> AdModel<T> {
    let v = a.value;
    let e1 = e.sub_spec(T::one_spec());
    let d = if e.is_zero_spec() {
        T::zero_spec()
    } else {
        e.mul_spec(v.powf_spec(e1))
    };
    let d2 = if e.is_zero_spec() || e1.is_zero_spec() {
        T::zero_spec()
    } else {
        e.mul_spec(e1).mul_spec(v.powf_spec(e.sub_spec(num(2))))
    };
    chain_model(v.powf_spec(e), d, d2, a, n)
}

/// `exp(a)`: both derivatives are `exp(a)`.
pub open spec fn exp_model<T: Real>(a: AdModel<T>, n: nat) -> AdModel<T> {
    let e = a.value.exp_spec();
    chain_model(e, e, e, a, n)
}

/// `ln(a)`: `g' = 1/a`, `g'' = -1/a²`.
pub open spec fn ln_model<T: Real>(a: AdModel<T>, n: nat) -> AdModel<T> {
    let inv = T::one_spec().div_spec(a.value);
    chain_model(a.value.ln_spec(), inv, inv.neg_spec().mul_spec(inv), a, n)
}

/// A logarithm with `g' = 1 / (a ln c)` and `g'' = -g' / a`, of value `f`.
pub open spec fn log_with_model<T: Real>(a: AdModel<T>, f: T, ln_c: T, n: nat) -> AdModel<T> {
    let inv = T::one_spec().div_spec(a.value).div_spec(ln_c);
    chain_model(f, inv, inv.neg_spec().div_spec(a.value), a, n)
}

/// `sin(a)`: `g' = cos a`, `g'' = -sin a`.
pub open spec fn sin_model<T: Real>(a: AdModel<T>, n: nat) -> AdModel<T> {
    let s = a.value.sin_spec();
    chain_model(s, a.value.cos_spec(), s.neg_spec(), a, n)
}

/// `cos(a)`: `g' = -sin a`, `g'' = -cos a`.
pub open spec fn cos_model<T: Real>(a: AdModel<T>, n: nat) -> AdModel<T> {
    let c = a.value.cos_spec();
    chain_model(c, a.value.sin_spec().neg_spec(), c.neg_spec(), a, n)
}

/// `tan(a)`: `g' = 1 / cos² a`, `g'' = 2 sin a / cos³ a`.
pub open spec fn tan_model<T: Real>(a: AdModel<T>, n: nat) -> AdModel<T> {
    let c = a.value.cos_spec();
    let c2 = c.mul_spec(c);
    chain_model(
        a.value.tan_spec(),
        T::one_spec().div_spec(c2),
        num::<T>(2).mul_spec(a.value.sin_spec()).div_spec(c2.mul_spec(c)),
        a,
        n,
    )
}

/// `asin(a)`: `g' = 1 / sqrt(1 - a²)`, `g'' = a / (1 - a²)^(3/2)`.
pub open spec fn asin_model<T: Real>(a: AdModel<T>, n: nat) -> AdModel<T> {
    let s = T::one_spec().sub_spec(a.value.mul_spec(a.value));
    let r = s.sqrt_spec();
    chain_model(
        a.value.asin_spec(),
        T::one_spec().div_spec(r),
        a.value.div_spec(s.mul_spec(r)),
        a,
        n,
    )
}

/// `acos(a)`: `g' = -1 / sqrt(1 - a²)`, `g'' = -a / (1 - a²)^(3/2)`.
pub open spec fn acos_model<T: Real>(a: AdModel<T>, n: nat) -> AdModel<T> {
    let s = T::one_spec().sub_spec(a.value.mul_spec(a.value));
    let r = s.sqrt_spec();
    chain_model(
        a.value.acos_spec(),
        T::one_spec().neg_spec().div_spec(r),
        a.value.neg_spec().div_spec(s.mul_spec(r)),
        a,
        n,
    )
}

/// `atan(a)`: `g' = 1 / (a² + 1)`, `g'' = -2a / (a² + 1)²`.
pub open spec fn atan_model<T: Real>(a: AdModel<T>, n: nat) -> AdModel<T> {
    let s = a.value.mul_spec(a.value).add_spec(T::one_spec());
    chain_model(
        a.value.atan_spec(),
        T::one_spec().div_spec(s),
        num::<T>(2).neg_spec().mul_spec(a.value).div_spec(s.mul_spec(s)),
        a,
        n,
    )
}

/// `sinh(a)`: `g' = cosh a`, `g'' = sinh a`.
pub open spec fn sinh_model<T: Real>(a: AdModel<T>, n: nat) -> AdModel<T> {
    let s = a.value.sinh_spec();
    chain_model(s, a.value.cosh_spec(), s, a, n)
}

/// `cosh(a)`: `g' = sinh a`, `g'' = cosh a`.
pub open spec fn cosh_model<T: Real>(a: AdModel<T>, n: nat) -> AdModel<T> {
    let c = a.value.cosh_spec();
    chain_model(c, a.value.sinh_spec(), c, a, n)
}

/// `tanh(a)`: `g' = 1 / cosh² a`, `g'' = -2 sinh a / cosh³ a`.
pub open spec fn tanh_model<T: Real>(a: AdModel<T>, n: nat) -> AdModel<T> {
    let c = a.value.cosh_spec();
    let c2 = c.mul_spec(c);
    chain_model(
        a.value.tanh_spec(),
        T::one_spec().div_spec(c2),
        num::<T>(2).neg_spec().mul_spec(a.value.sinh_spec()).div_spec(c2.mul_spec(c)),
        a,
        n,
    )
}

/// `asinh(a)`: `g' = 1 / sqrt(a² + 1)`, `g'' = -a / (a² + 1)^(3/2)`.
pub open spec fn asinh_model<T: Real>(a: AdModel<T>, n: nat) -> AdModel<T> {
    let s = a.value.mul_spec(a.value).add_spec(T::one_spec());
    let r = s.sqrt_spec();
    chain_model(
        a.value.asinh_spec(),
        T::one_spec().div_spec(r),
        a.value.neg_spec().div_spec(s.mul_spec(r)),
        a,
        n,
    )
}

/// `acosh(a)`: `g' = 1 / sqrt((a-1)(a+1))`, `g'' = -a / ((a-1)(a+1))^(3/2)`.
pub open spec fn acosh_model<T: Real>(a: AdModel<T>, n: nat) -> AdModel<T> {
    let sm = a.value.sub_spec(T::one_spec());
    let sp = a.value.add_spec(T::one_spec());
    let p = sm.mul_spec(sp).sqrt_spec();
    chain_model(
        a.value.acosh_spec(),
        T::one_spec().div_spec(p),
        a.value.neg_spec().div_spec(p.mul_spec(sm).mul_spec(sp)),
        a,
        n,
    )
}

/// `atanh(a)`: `g' = 1 / (1 - a²)`, `g'' = 2a / (1 - a²)²`.
pub open spec fn atanh_model<T: Real>(a: AdModel<T>, n: nat) -> AdModel<T> {
    let s = T::one_spec().sub_spec(a.value.mul_spec(a.value));
    chain_model(
        a.value.atanh_spec(),
        T::one_spec().div_spec(s),
        num::<T>(2).mul_spec(a.value).div_spec(s.mul_spec(s)),
        a,
        n,
    )
}

/// `c^a` for a number `c`: `g' = c^a ln c`, `g'' = c^a ln² c`.
pub open spec fn pow_ad_model<T: Real>(c: T, a: AdModel<T>, n: nat) -> AdModel<T> {
    let p = c.powf_spec(a.value);
    let l = c.ln_spec();
    chain_model(p, p.mul_spec(l), p.mul_spec(l).mul_spec(l), a, n)
}

/// `a + b`.
pub open spec fn add_model<T: Real>(a: AdModel<T>, b: AdModel<T>, n: nat) -> AdModel<T> {
    apply(Rule::Sum, a.value.add_spec(b.value), a, b, Seq::empty(), n)
}

/// `a - b`.
pub open spec fn sub_model<T: Real>(a: AdModel<T>, b: AdModel<T>, n: nat) -> AdModel<T> {
    apply(Rule::Difference, a.value.sub_spec(b.value), a, b, Seq::empty(), n)
}

/// `a * b`, by the product rule.
pub open spec fn mul_model<T: Real>(a: AdModel<T>, b: AdModel<T>, n: nat) -> AdModel<T> {
    apply(Rule::Product, a.value.mul_spec(b.value), a, b, Seq::empty(), n)
}

/// `a / b`, by the quotient rule.
pub open spec fn div_model<T: Real>(a: AdModel<T>, b: AdModel<T>, n: nat) -> AdModel<T> {
    let q = a.value.div_spec(b.value);
    apply(Rule::Quotient(q), q, a, b, Seq::empty(), n)
}

/// `c / b` for a number `c`.
pub open spec fn div_ad_model<T: Real>(c: T, b: AdModel<T>, n: nat) -> AdModel<T> {
    let q = c.div_spec(b.value);
    apply(Rule::Reciprocal(c, q), q, b, b, Seq::empty(), n)
}

/// `a * c` for a number `c`.
pub open spec fn mul_value_model<T: Real>(a: AdModel<T>, c: T, n: nat) -> AdModel<T> {
    apply(Rule::ScaleRight(c), a.value.mul_spec(c), a, a, Seq::empty(), n)
}

/// `a / c` for a number `c`.
pub open spec fn div_value_model<T: Real>(a: AdModel<T>, c: T, n: nat) -> AdModel<T> {
    apply(Rule::DivideBy(c), a.value.div_spec(c), a, a, Seq::empty(), n)
}

/// `atan2(y, x)`, with both arguments varying.
pub open spec fn atan2_model<T: Real>(y: AdModel<T>, x: AdModel<T>, n: nat) -> AdModel<T> {
    let v = x.value.mul_spec(x.value).add_spec(y.value.mul_spec(y.value));
    apply(
        Rule::Atan2(v),
        y.value.atan2_spec(x.value),
        y,
        x,
        grad_of(Rule::Atan2Slope(num(2)), y, x, n),
        n,
    )
}

impl<T: Real, const N: usize> Ad<T, N> {
    /// `-self`.
    pub fn neg(&self) -> (r: Self)
        ensures
            r@ == neg_model(self@, N as nat),
    {
        Self::combine(Rule::Negate, self.value().neg(), self, self, &Vec::new())
    }

    /// `self * self`.
    pub fn square(&self) -> (r: Self)
        ensures
            r@ == square_model(self@, N as nat),
    {
        let v = self.value();
        Self::combine(Rule::Square(T::from_i32(2)), v.mul(&v), self, self, &Vec::new())
    }

    /// `|self|`; its derivatives are those of `self` or of `-self` by the sign.
    pub fn abs(&self) -> (r: Self)
        ensures
            r@ == abs_model(self@, N as nat),
    {
        let v = self.value();
        let sign = if T::zero().le(&v) {
            T::one()
        } else {
            T::one().neg()
        };
        Self::combine(Rule::ScaleLeft(sign), v.abs(), self, self, &Vec::new())
    }

    /// The square root; fails on a negative value.
    pub fn sqrt(&self) -> (r: Result<Self, AdError>)
        ensures
            checked(r, self@.value.lt_spec(T::zero_spec()), sqrt_model(self@, N as nat)),
    {
        let v = self.value();
        if v.lt(&T::zero()) {
            return Err(AdError::Domain);
        }
        let f = v.sqrt();
        let one = T::one();
        let d = one.div(&T::from_i32(2)).div(&f);
        let d2 = one.div(&T::from_i32(4)).neg().div(&f.mul(&v));
        Ok(Self::chain(f, d, d2, self))
    }

    /// `self` to the integer power `exponent`; fails on `0^0`.
    pub fn powi(&self, exponent: i32) -> (r: Result<Self, AdError>)
        requires
            exponent >= i32::MIN + 2,
        ensures
            checked(
                r,
                self@.value.is_zero_spec() && exponent == 0,
                powi_model(self@, exponent, N as nat),
            ),
    {
        let v = self.value();
        if v.is_zero() && exponent == 0 {
            return Err(AdError::Domain);
        }
        let e = T::from_i32(exponent);
        let d = if exponent == 0 {
            T::zero()
        } else {
            e.mul(&v.powi(exponent - 1))
        };
        let d2 = if exponent == 0 || exponent == 1 {
            T::zero()
        } else {
            e.mul(&e.sub(&T::one())).mul(&v.powi(exponent - 2))
        };
        Ok(Self::chain(v.powi(exponent), d, d2, self))
    }

    /// `self` to the real power `exponent`; fails on `0^0`.
    pub fn powf(&self, exponent: T) -> (r: Result<Self, AdError>)
        ensures
            checked(
                r,
                self@.value.is_zero_spec() && exponent.is_zero_spec(),
                powf_model(self@, exponent, N as nat),
            ),
    {
        let v = self.value();
        if v.is_zero() && exponent.is_zero() {
            return Err(AdError::Domain);
        }
        let e1 = exponent.sub(&T::one());
        let d = if exponent.is_zero() {
            T::zero()
        } else {
            exponent.mul(&v.powf(&e1))
        };
        let d2 = if exponent.is_zero() || e1.is_zero() {
            T::zero()
        } else {
            exponent.mul(&e1).mul(&v.powf(&exponent.sub(&T::from_i32(2))))
        };
        Ok(Self::chain(v.powf(&exponent), d, d2, self))
    }

    /// The exponential.
    pub fn exp(&self) -> (r: Self)
        ensures
            r@ == exp_model(self@, N as nat),
    {
        let e = self.value().exp();
        Self::chain(e, e, e, self)
    }

    /// The natural logarithm; fails on a value that is not positive.
    pub fn ln(&self) -> (r: Result<Self, AdError>)
        ensures
            checked(r, self@.value.le_spec(T::zero_spec()), ln_model(self@, N as nat)),
    {
        let v = self.value();
        if v.le(&T::zero()) {
            return Err(AdError::Domain);
        }
        let inv = T::one().div(&v);
        Ok(Self::chain(v.ln(), inv, inv.neg().mul(&inv), self))
    }

    /// A logarithm of value `f` whose base has the natural logarithm `ln_c`.
    fn log_with(&self, f: T, ln_c: T) -> (r: Self)
        ensures
            r@ == log_with_model(self@, f, ln_c, N as nat),
    {
        let v = self.value();
        let inv = T::one().div(&v).div(&ln_c);
        Self::chain(f, inv, inv.neg().div(&v), self)
    }

    /// The logarithm in the base `base`; fails unless both are positive.
    pub fn log(&self, base: T) -> (r: Result<Self, AdError>)
        ensures
            checked(
                r,
                self@.value.le_spec(T::zero_spec()) || base.le_spec(T::zero_spec()),
                log_with_model(self@, self@.value.log_spec(base), base.ln_spec(), N as nat),
            ),
    {
        let v = self.value();
        if v.le(&T::zero()) || base.le(&T::zero()) {
            return Err(AdError::Domain);
        }
        Ok(self.log_with(v.log(&base), base.ln()))
    }

    /// The base-2 logarithm; fails on a value that is not positive.
    pub fn log2(&self) -> (r: Result<Self, AdError>)
        ensures
            checked(
                r,
                self@.value.le_spec(T::zero_spec()),
                log_with_model(self@, self@.value.log2_spec(), num::<T>(2).ln_spec(), N as nat),
            ),
    {
        let v = self.value();
        if v.le(&T::zero()) {
            return Err(AdError::Domain);
        }
        Ok(self.log_with(v.log2(), T::from_i32(2).ln()))
    }

    /// The base-10 logarithm; fails on a value that is not positive.
    pub fn log10(&self) -> (r: Result<Self, AdError>)
        ensures
            checked(
                r,
                self@.value.le_spec(T::zero_spec()),
                log_with_model(self@, self@.value.log10_spec(), num::<T>(10).ln_spec(), N as nat),
            ),
    {
        let v = self.value();
        if v.le(&T::zero()) {
            return Err(AdError::Domain);
        }
        Ok(self.log_with(v.log10(), T::from_i32(10).ln()))
    }

    /// The sine.
    pub fn sin(&self) -> (r: Self)
        ensures
            r@ == sin_model(self@, N as nat),
    {
        let v = self.value();
        let s = v.sin();
        Self::chain(s, v.cos(), s.neg(), self)
    }

    /// The cosine.
    pub fn cos(&self) -> (r: Self)
        ensures
            r@ == cos_model(self@, N as nat),
    {
        let v = self.value();
        let c = v.cos();
        Self::chain(c, v.sin().neg(), c.neg(), self)
    }

    /// The tangent.
    pub fn tan(&self) -> (r: Self)
        ensures
            r@ == tan_model(self@, N as nat),
    {
        let v = self.value();
        let c = v.cos();
        let c2 = c.mul(&c);
        let d2 = T::from_i32(2).mul(&v.sin()).div(&c2.mul(&c));
        Self::chain(v.tan(), T::one().div(&c2), d2, self)
    }

    /// The arcsine; fails outside `[-1, 1]`.
    pub fn asin(&self) -> (r: Result<Self, AdError>)
        ensures
            checked(
                r,
                self@.value.lt_spec(T::one_spec().neg_spec()) || T::one_spec().lt_spec(self@.value),
                asin_model(self@, N as nat),
            ),
    {
        let v = self.value();
        let one = T::one();
        if v.lt(&one.neg()) || one.lt(&v) {
            return Err(AdError::Domain);
        }
        let s = one.sub(&v.mul(&v));
        let r = s.sqrt();
        Ok(Self::chain(v.asin(), one.div(&r), v.div(&s.mul(&r)), self))
    }

    /// The arccosine; fails outside `[-1, 1]`.
    pub fn acos(&self) -> (r: Result<Self, AdError>)
        ensures
            checked(
                r,
                self@.value.lt_spec(T::one_spec().neg_spec()) || T::one_spec().lt_spec(self@.value),
                acos_model(self@, N as nat),
            ),
    {
        let v = self.value();
        let one = T::one();
        if v.lt(&one.neg()) || one.lt(&v) {
            return Err(AdError::Domain);
        }
        let s = one.sub(&v.mul(&v));
        let r = s.sqrt();
        Ok(Self::chain(v.acos(), one.neg().div(&r), v.neg().div(&s.mul(&r)), self))
    }

    /// The arctangent.
    pub fn atan(&self) -> (r: Self)
        ensures
            r@ == atan_model(self@, N as nat),
    {
        let v = self.value();
        let one = T::one();
        let s = v.mul(&v).add(&one);
        let d2 = T::from_i32(2).neg().mul(&v).div(&s.mul(&s));
        Self::chain(v.atan(), one.div(&s), d2, self)
    }

    /// The hyperbolic sine.
    pub fn sinh(&self) -> (r: Self)
        ensures
            r@ == sinh_model(self@, N as nat),
    {
        let v = self.value();
        let s = v.sinh();
        Self::chain(s, v.cosh(), s, self)
    }

    /// The hyperbolic cosine.
    pub fn cosh(&self) -> (r: Self)
        ensures
            r@ == cosh_model(self@, N as nat),
    {
        let v = self.value();
        let c = v.cosh();
        Self::chain(c, v.sinh(), c, self)
    }

    /// The hyperbolic tangent.
    pub fn tanh(&self) -> (r: Self)
        ensures
            r@ == tanh_model(self@, N as nat),
    {
        let v = self.value();
        let c = v.cosh();
        let c2 = c.mul(&c);
        let d2 = T::from_i32(2).neg().mul(&v.sinh()).div(&c2.mul(&c));
        Self::chain(v.tanh(), T::one().div(&c2), d2, self)
    }

    /// The inverse hyperbolic sine.
    pub fn asinh(&self) -> (r: Self)
        ensures
            r@ == asinh_model(self@, N as nat),
    {
        let v = self.value();
        let one = T::one();
        let s = v.mul(&v).add(&one);
        let r = s.sqrt();
        Self::chain(v.asinh(), one.div(&r), v.neg().div(&s.mul(&r)), self)
    }

    /// The inverse hyperbolic cosine; fails below one.
    pub fn acosh(&self) -> (r: Result<Self, AdError>)
        ensures
            checked(r, self@.value.lt_spec(T::one_spec()), acosh_model(self@, N as nat)),
    {
        let v = self.value();
        let one = T::one();
        if v.lt(&one) {
            return Err(AdError::Domain);
        }
        let sm = v.sub(&one);
        let sp = v.add(&one);
        let p = sm.mul(&sp).sqrt();
        Ok(Self::chain(v.acosh(), one.div(&p), v.neg().div(&p.mul(&sm).mul(&sp)), self))
    }

    /// The inverse hyperbolic tangent; fails outside `(-1, 1)`.
    pub fn atanh(&self) -> (r: Result<Self, AdError>)
        ensures
            checked(
                r,
                self@.value.le_spec(T::one_spec().neg_spec()) || T::one_spec().le_spec(self@.value),
                atanh_model(self@, N as nat),
            ),
    {
        let v = self.value();
        let one = T::one();
        if v.le(&one.neg()) || one.le(&v) {
            return Err(AdError::Domain);
        }
        let s = one.sub(&v.mul(&v));
        let d2 = T::from_i32(2).mul(&v).div(&s.mul(&s));
        Ok(Self::chain(v.atanh(), one.div(&s), d2, self))
    }

    /// The number `base` raised to the power `exponent`; fails on a negative base.
    pub fn pow_ad(base: T, exponent: &Self) -> (r: Result<Self, AdError>)
        ensures
            checked(r, base.lt_spec(T::zero_spec()), pow_ad_model(base, exponent@, N as nat)),
    {
        if base.lt(&T::zero()) {
            return Err(AdError::Domain);
        }
        let p = base.powf(&exponent.value());
        let l = base.ln();
        let d = p.mul(&l);
        Ok(Self::chain(p, d, d.mul(&l), exponent))
    }

    /// `self + other`.
    pub fn add(&self, other: &Self) -> (r: Self)
        ensures
            r@ == add_model(self@, other@, N as nat),
    {
        Self::combine(Rule::Sum, self.value().add(&other.value()), self, other, &Vec::new())
    }

    /// `self - other`.
    pub fn sub(&self, other: &Self) -> (r: Self)
        ensures
            r@ == sub_model(self@, other@, N as nat),
    {
        Self::combine(Rule::Difference, self.value().sub(&other.value()), self, other, &Vec::new())
    }

    /// `self * other`.
    pub fn mul(&self, other: &Self) -> (r: Self)
        ensures
            r@ == mul_model(self@, other@, N as nat),
    {
        Self::combine(Rule::Product, self.value().mul(&other.value()), self, other, &Vec::new())
    }

    /// `self / other`; fails when `other` is zero.
    pub fn div(&self, other: &Self) -> (r: Result<Self, AdError>)
        ensures
            checked(r, other@.value.is_zero_spec(), div_model(self@, other@, N as nat)),
    {
        let b = other.value();
        if b.is_zero() {
            return Err(AdError::Domain);
        }
        let q = self.value().div(&b);
        Ok(Self::combine(Rule::Quotient(q), q, self, other, &Vec::new()))
    }

    /// The number `numerator` over `denom`; fails when `denom` is zero.
    pub fn div_ad(numerator: T, denom: &Self) -> (r: Result<Self, AdError>)
        ensures
            checked(r, denom@.value.is_zero_spec(), div_ad_model(numerator, denom@, N as nat)),
    {
        let b = denom.value();
        if b.is_zero() {
            return Err(AdError::Domain);
        }
        let q = numerator.div(&b);
        Ok(Self::combine(Rule::Reciprocal(numerator, q), q, denom, denom, &Vec::new()))
    }

    /// `1 / self`; fails when `self` is zero.
    pub fn recip(&self) -> (r: Result<Self, AdError>)
        ensures
            checked(r, self@.value.is_zero_spec(), div_ad_model(T::one_spec(), self@, N as nat)),
    {
        Self::div_ad(T::one(), self)
    }

    /// `self + c` for a number `c`: the derivatives stay as they are.
    pub fn add_value(&self, c: T) -> (r: Self)
        ensures
            r@ == (AdModel { value: self@.value.add_spec(c), grad: self@.grad, hess: self@.hess }),
    {
        self.with_value(self.value().add(&c))
    }

    /// `self - c` for a number `c`: the derivatives stay as they are.
    pub fn sub_value(&self, c: T) -> (r: Self)
        ensures
            r@ == (AdModel { value: self@.value.sub_spec(c), grad: self@.grad, hess: self@.hess }),
    {
        self.with_value(self.value().sub(&c))
    }

    /// `self * c` for a number `c`.
    pub fn mul_value(&self, c: T) -> (r: Self)
        ensures
            r@ == mul_value_model(self@, c, N as nat),
    {
        Self::combine(Rule::ScaleRight(c), self.value().mul(&c), self, self, &Vec::new())
    }

    /// `self / c` for a number `c`; fails when `c` is zero.
    pub fn div_value(&self, c: T) -> (r: Result<Self, AdError>)
        ensures
            checked(r, c.is_zero_spec(), div_value_model(self@, c, N as nat)),
    {
        if c.is_zero() {
            return Err(AdError::Domain);
        }
        Ok(Self::combine(Rule::DivideBy(c), self.value().div(&c), self, self, &Vec::new()))
    }

    /// `atan2(self, x)`: the angle of the point `(x, self)`. Its derivatives
    /// divide by `x² + self²`, so it fails where that is zero.
    pub fn atan2(&self, x: &Self) -> (r: Result<Self, AdError>)
        ensures
            ({
                let (yv, xv) = (self@.value, x@.value);
                let v = xv.mul_spec(xv).add_spec(yv.mul_spec(yv));
                checked(r, v.is_zero_spec(), atan2_model(self@, x@, N as nat))
            }),
    {
        let yv = self.value();
        let xv = x.value();
        let v = xv.mul(&xv).add(&yv.mul(&yv));
        if v.is_zero() {
            return Err(AdError::Domain);
        }
        let slope = Self::build_grad(&Rule::Atan2Slope(T::from_i32(2)), self, x);
        Ok(Self::combine(Rule::Atan2(v), yv.atan2(&xv), self, x, &slope))
    }

    /// The operand of smaller value, whole; `other` on a tie.
    pub fn min(&self, other: &Self) -> (r: Self)
        ensures
            r@ == if self@.value.lt_spec(other@.value) {
                self@
            } else {
                other@
            },
    {
        if self.value().lt(&other.value()) {
            self.copy()
        } else {
            other.copy()
        }
    }

    /// The operand of larger value, whole; `other` on a tie.
    pub fn max(&self, other: &Self) -> (r: Self)
        ensures
            r@ == if other@.value.lt_spec(self@.value) {
                self@
            } else {
                other@
            },
    {
        if other.value().lt(&self.value()) {
            self.copy()
        } else {
            other.copy()
        }
    }

    /// `self` raised to at least `low` and then cut to at most `high`.
    pub fn clamp(&self, low: &Self, high: &Self) -> (r: Self)
        ensures
            ({
                let m = if low@.value.lt_spec(self@.value) {
                    self@
                } else {
                    low@
                };
                r@ == if m.value.lt_spec(high@.value) {
                    m
                } else {
                    high@
                }
            }),
    {
        self.max(low).min(high)
    }

    /// `sqrt(self² + other²)`, composed from the operations above.
    pub fn hypot(&self, other: &Self) -> (r: Result<Self, AdError>)
        ensures
            ({
                let s = add_model(mul_model(self@, self@, N as nat), mul_model(other@, other@, N as nat), N as nat);
                checked(r, s.value.lt_spec(T::zero_spec()), sqrt_model(s, N as nat))
            }),
    {
        self.mul(self).add(&other.mul(other)).sqrt()
    }
}

/// Two AD values are equal when their values are, whatever their derivatives.
impl<T: Real, const N: usize> PartialEq for Ad<T, N> {
    fn eq(&self, other: &Self) -> (r: bool) {
        let (a, b) = (self.value(), other.value());
        a.le(&b) && b.le(&a)
    }
}

impl<T: Real, const N: usize> vstd::std_specs::cmp::PartialEqSpecImpl for Ad<T, N> {
    open spec fn obeys_eq_spec() -> bool {
        true
    }

    open spec fn eq_spec(&self, other: &Self) -> bool {
        self@.value.le_spec(other@.value) && other@.value.le_spec(self@.value)
    }
}

/// AD values are ordered by their values alone.
impl<T: Real, const N: usize> PartialOrd for Ad<T, N> {
    fn partial_cmp(&self, other: &Self) -> (r: Option<core::cmp::Ordering>) {
        let (a, b) = (self.value(), other.value());
        if a.lt(&b) {
            Some(core::cmp::Ordering::Less)
        } else if b.lt(&a) {
            Some(core::cmp::Ordering::Greater)
        } else if a.le(&b) && b.le(&a) {
            Some(core::cmp::Ordering::Equal)
        } else {
            None
        }
    }
}

impl<T: Real, const N: usize> vstd::std_specs::cmp::PartialOrdSpecImpl for Ad<T, N> {
    open spec fn obeys_partial_cmp_spec() -> bool {
        true
    }

    open spec fn partial_cmp_spec(&self, other: &Self) -> Option<core::cmp::Ordering> {
        let (a, b) = (self@.value, other@.value);
        if a.lt_spec(b) {
            Some(core::cmp::Ordering::Less)
        } else if b.lt_spec(a) {
            Some(core::cmp::Ordering::Greater)
        } else if a.le_spec(b) && b.le_spec(a) {
            Some(core::cmp::Ordering::Equal)
        } else {
            None
        }
    }
}

} // verus!
