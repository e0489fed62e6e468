use vstd::prelude::*;
use crate::scalar::Real;

verus! {

/// Value, gradient and Hessian of an AD value, as mathematical sequences.
pub struct AdModel<T> {
    pub value: T,
    pub grad: Seq<T>,
    pub hess: Seq<Seq<T>>,
}

impl<T> AdModel<T> {
    /// A gradient of length `n` and a symmetric `n` by `n` Hessian.
    pub open spec fn wf(self, n: nat) -> bool {
        &&& self.grad.len() == n
        &&& self.hess.len() == n
        &&& forall|i: int| 0 <= i < n ==> #[trigger] self.hess[i].len() == n
        &&& forall|i: int, j: int|
            0 <= i < n && 0 <= j < n ==> #[trigger] self.hess[i][j] == self.hess[j][i]
    }
}

/// The `n` by `n` matrix whose entries on and above the diagonal are `f(i, j)`
/// and whose entries below it mirror them.
pub open spec fn mirrored<T>(n: nat, f: spec_fn(int, int) -> T) -> Seq<Seq<T>> {
    Seq::new(n, |i: int| Seq::new(n, |j: int| if i <= j { f(i, j) } else { f(j, i) }))
}

/// The constant `c` with respect to `n` variables: zero gradient and Hessian.
pub open spec fn constant_model<T: Real>(c: T, n: nat) -> AdModel<T> {
    AdModel {
        value: c,
        grad: Seq::new(n, |i: int| T::zero_spec()),
        hess: Seq::new(n, |i: int| Seq::new(n, |j: int| T::zero_spec())),
    }
}

/// The variable number `k` of `n`, at the value `c`: unit gradient in slot `k`.
pub open spec fn variable_model<T: Real>(c: T, k: int, n: nat) -> AdModel<T> {
    AdModel {
        value: c,
        grad: Seq::new(n, |i: int| if i == k { T::one_spec() } else { T::zero_spec() }),
        hess: Seq::new(n, |i: int| Seq::new(n, |j: int| T::zero_spec())),
    }
}

/// How an operation forms the gradient and Hessian of its result from those
/// of its operands `a` and `b` (operations of one operand pass it twice).
pub enum Rule<T> {
    /// `-a`.
    Negate,
    /// `s * a`, for a number `s`.
    ScaleLeft(T),
    /// `a * s`, for a number `s`.
    ScaleRight(T),
    /// `a / s`, for a number `s`.
    DivideBy(T),
    /// `a + b`.
    Sum,
    /// `a - b`.
    Difference,
    /// `g(a)` for a function `g` with derivatives `g'(a) = d` and `g''(a) = d2`.
    Chain(T, T),
    /// `a * a`; the number is two.
    Square(T),
    /// `a * b`.
    Product,
    /// `a / b`; the number is the quotient's value.
    Quotient(T),
    /// `c / b` for a number `c`; the second number is the quotient's value.
    Reciprocal(T, T),
    /// `atan2(a, b)`; the number is `b² + a²`.
    Atan2(T),
    /// Gradient of `b² + a²`, which `atan2` needs; the number is two. Only
    /// its gradient is used.
    Atan2Slope(T),
}

/// Entry `i` of the result's gradient.
pub open spec fn grad_entry<T: Real>(rule: Rule<T>, a: AdModel<T>, b: AdModel<T>, i: int) -> T {
    match rule {
        Rule::Negate => a.grad[i].neg_spec(),
        Rule::ScaleLeft(s) => s.mul_spec(a.grad[i]),
        Rule::ScaleRight(s) => a.grad[i].mul_spec(s),
        Rule::DivideBy(s) => a.grad[i].div_spec(s),
        Rule::Sum => a.grad[i].add_spec(b.grad[i]),
        Rule::Difference => a.grad[i].sub_spec(b.grad[i]),
        Rule::Chain(d, _) => d.mul_spec(a.grad[i]),
        Rule::Square(two) => two.mul_spec(a.value).mul_spec(a.grad[i]),
        Rule::Product => a.grad[i].mul_spec(b.value).add_spec(a.value.mul_spec(b.grad[i])),
        Rule::Quotient(_) => b.value.mul_spec(a.grad[i]).sub_spec(a.value.mul_spec(b.grad[i])).div_spec(
            b.value.mul_spec(b.value),
        ),
        Rule::Reciprocal(c, _) => c.neg_spec().div_spec(b.value.mul_spec(b.value)).mul_spec(b.grad[i]),
        Rule::Atan2(v) => b.value.mul_spec(a.grad[i]).sub_spec(a.value.mul_spec(b.grad[i])).div_spec(v),
        Rule::Atan2Slope(two) => two.mul_spec(
            b.value.mul_spec(b.grad[i]).add_spec(a.value.mul_spec(a.grad[i])),
        ),
    }
}

/// Entry `(i, j)` of the result's Hessian, for `i <= j`, given the result's
/// gradient `g` and, for `atan2`, the gradient `x` of `b² + a²`.
pub open spec fn hess_entry<T: Real>(
    rule: Rule<T>,
    a: AdModel<T>,
    b: AdModel<T>,
    g: Seq<T>,
    x: Seq<T>,
    i: int,
    j: int,
) -> T {
    match rule {
        Rule::Negate => a.hess[i][j].neg_spec(),
        Rule::ScaleLeft(s) => s.mul_spec(a.hess[i][j]),
        Rule::ScaleRight(s) => a.hess[i][j].mul_spec(s),
        Rule::DivideBy(s) => a.hess[i][j].div_spec(s),
        Rule::Sum => a.hess[i][j].add_spec(b.hess[i][j]),
        Rule::Difference => a.hess[i][j].sub_spec(b.hess[i][j]),
        Rule::Chain(d, d2) => d2.mul_spec(a.grad[i]).mul_spec(a.grad[j]).add_spec(
            d.mul_spec(a.hess[i][j]),
        ),
        Rule::Square(two) => two.mul_spec(
            a.value.mul_spec(a.hess[i][j]).add_spec(a.grad[i].mul_spec(a.grad[j])),
        ),
        Rule::Product => b.value.mul_spec(a.hess[i][j]).add_spec(
            a.value.mul_spec(b.hess[i][j]),
        ).add_spec(a.grad[i].mul_spec(b.grad[j])).add_spec(b.grad[i].mul_spec(a.grad[j])),
        Rule::Quotient(q) => a.hess[i][j].sub_spec(g[i].mul_spec(b.grad[j])).sub_spec(
            b.grad[i].mul_spec(g[j]),
        ).sub_spec(q.mul_spec(b.hess[i][j])).div_spec(b.value),
        Rule::Reciprocal(_, q) => g[i].neg_spec().mul_spec(b.grad[j]).sub_spec(
            b.grad[i].mul_spec(g[j]),
        ).sub_spec(q.mul_spec(b.hess[i][j])).div_spec(b.value),
        Rule::Atan2(v) => b.value.mul_spec(a.hess[i][j]).sub_spec(
            a.value.mul_spec(b.hess[i][j]),
        ).add_spec(a.grad[i].mul_spec(b.grad[j])).sub_spec(b.grad[i].mul_spec(a.grad[j])).sub_spec(
            g[i].mul_spec(x[j]),
        ).div_spec(v),
        Rule::Atan2Slope(_) => a.hess[i][j],
    }
}

/// The gradient that `rule` gives, over `n` variables.
pub open spec fn grad_of<T: Real>(rule: Rule<T>, a: AdModel<T>, b: AdModel<T>, n: nat) -> Seq<T> {
    Seq::new(n, |i: int| grad_entry(rule, a, b, i))
}

/// The result of `rule` with value `value`: its gradient by [`grad_entry`], and
/// its Hessian by [`hess_entry`] on and above the diagonal, mirrored below it.
pub open spec fn apply<T: Real>(
    rule: Rule<T>,
    value: T,
    a: AdModel<T>,
    b: AdModel<T>,
    x: Seq<T>,
    n: nat,
) -> AdModel<T> {
    let g = grad_of(rule, a, b, n);
    AdModel { value, grad: g, hess: mirrored(n, |i: int, j: int| hess_entry(rule, a, b, g, x, i, j)) }
}

/// The chain rule: `g(a)` for a function `g` with `g(a.value) = f`,
/// `g'(a.value) = d` and `g''(a.value) = d2`.
pub open spec fn chain_model<T: Real>(f: T, d: T, d2: T, a: AdModel<T>, n: nat) -> AdModel<T> {
    apply(Rule::Chain(d, d2), f, a, a, Seq::empty(), n)
}

/// Why an operation refused its operands.
#[derive(Debug, Clone, Copy, PartialEq, Eq, Structural)]
pub enum AdError {
    /// An operand lies outside the operation's domain (a square root of a
    /// negative number, a division by zero, ...).
    Domain,
    /// The operation is not offered for operands of this size.
    Unsupported,
}

/// A number together with its gradient and Hessian with respect to `N`
/// independent variables.
pub struct Ad<T: Real, const N: usize> {
    value: T,
    grad: Vec<T>,
    hess: Vec<Vec<T>>,
}

impl<T: Real, const N: usize> View for Ad<T, N> {
    type V = AdModel<T>;

    closed spec fn view(&self) -> AdModel<T> {
        AdModel {
            value: self.value,
            grad: self.grad@,
            hess: self.hess@.map_values(|r: Vec<T>| r@),
        }
    }
}

impl<T: Real, const N: usize> Ad<T, N> {
    /// Every AD value has a gradient of length `N` and a symmetric `N` by `N` Hessian.
    #[verifier::type_invariant]
    pub open spec fn inv(&self) -> bool {
        self@.wf(N as nat)
    }

    /// The function value.
    pub fn value(&self) -> (r: T)
        ensures
            r == self@.value,
    {
        self.value
    }

    /// A copy of the gradient.
    pub fn grad(&self) -> (r: Vec<T>)
        ensures
            r@ == self@.grad,
    {
        copy_vec(&self.grad)
    }

    /// A copy of the Hessian.
    pub fn hess(&self) -> (r: Vec<Vec<T>>)
        ensures
            r@.map_values(|row: Vec<T>| row@) == self@.hess,
    {
        proof {
            use_type_invariant(self);
        }
        let mut rows: Vec<Vec<T>> = Vec::new();
        let mut i: usize = 0;
        while i < N
            invariant
                i <= N,
                self@.wf(N as nat),
                rows@.len() == i,
                forall|k: int| 0 <= k < i ==> #[trigger] rows@[k]@ == self@.hess[k],
            decreases N - i,
        {
            rows.push(copy_vec(&self.hess[i]));
            i += 1;
        }
        assert(rows@.map_values(|row: Vec<T>| row@) =~= self@.hess);
        rows
    }

    /// An independent copy of this value.
    pub fn copy(&self) -> (r: Self)
        ensures
            r@ == self@,
    {
        proof {
            use_type_invariant(self);
        }
        let g = self.grad();
        let h = self.hess();
        Ad { value: self.value, grad: g, hess: h }
    }

    /// The constant `value`: zero gradient and Hessian.
    pub fn inactive_scalar(value: T) -> (r: Self)
        ensures
            r@ == constant_model(value, N as nat),
    {
        let z = T::zero();
        let g = filled(z, N);
        let mut rows: Vec<Vec<T>> = Vec::new();
        let mut i: usize = 0;
        while i < N
            invariant
                i <= N,
                z == T::zero_spec(),
                g@ == Seq::new(N as nat, |j: int| T::zero_spec()),
                rows@.len() == i,
                forall|k: int| 0 <= k < i ==> #[trigger] rows@[k]@ == g@,
            decreases N - i,
        {
            rows.push(filled(z, N));
            i += 1;
        }
        let r = Ad { value, grad: g, hess: rows };
        assert(r@.hess =~= constant_model(value, N as nat).hess);
        r
    }

    /// The variable number `index` at `value`: unit gradient in slot `index`,
    /// zero Hessian.
    pub fn active_scalar_with_index(value: T, index: usize) -> (r: Self)
        requires
            index < N,
        ensures
            r@ == variable_model(value, index as int, N as nat),
    {
        let c = Self::inactive_scalar(value);
        let Ad { value: v, grad: mut g, hess: h } = c;
        g.set(index, T::one());
        let r = Ad { value: v, grad: g, hess: h };
        assert(r@.grad =~= variable_model(value, index as int, N as nat).grad);
        assert(r@.hess =~= variable_model(value, index as int, N as nat).hess);
        r
    }

    /// An AD value with the given value, gradient and Hessian.
    pub fn given_vector(value: T, grad: &Vec<T>, hess: &Vec<Vec<T>>) -> (r: Self)
        requires
            (AdModel { value, grad: grad@, hess: hess@.map_values(|row: Vec<T>| row@) }).wf(
                N as nat,
            ),
        ensures
            r@ == (AdModel { value, grad: grad@, hess: hess@.map_values(|row: Vec<T>| row@) }),
    {
        let g = copy_vec(grad);
        let mut rows: Vec<Vec<T>> = Vec::new();
        let mut i: usize = 0;
        while i < N
            invariant
                i <= N,
                hess@.len() == N,
                rows@.len() == i,
                forall|k: int| 0 <= k < i ==> #[trigger] rows@[k]@ == hess@[k]@,
            decreases N - i,
        {
            rows.push(copy_vec(&hess[i]));
            i += 1;
        }
        assert(rows@.map_values(|row: Vec<T>| row@) =~= hess@.map_values(|row: Vec<T>| row@));
        Ad { value, grad: g, hess: rows }
    }

    /// Constants for each of `values`.
    pub fn inactive_vector(values: &Vec<T>) -> (r: Vec<Self>)
        requires
            values@.len() == N,
        ensures
            r@.len() == N,
            forall|k: int| 0 <= k < N ==> #[trigger] r@[k]@ == constant_model(values@[k], N as nat),
    {
        Self::inactive_from_slice(values.as_slice())
    }

    /// Constants for each of `values`.
    pub fn inactive_from_slice(values: &[T]) -> (r: Vec<Self>)
        requires
            values@.len() == N,
        ensures
            r@.len() == N,
            forall|k: int| 0 <= k < N ==> #[trigger] r@[k]@ == constant_model(values@[k], N as nat),
    {
        let mut r: Vec<Self> = Vec::new();
        let mut i: usize = 0;
        while i < N
            invariant
                i <= N,
                values@.len() == N,
                r@.len() == i,
                forall|k: int| 0 <= k < i ==> #[trigger] r@[k]@ == constant_model(values@[k], N as nat),
            decreases N - i,
        {
            r.push(Self::inactive_scalar(values[i]));
            i += 1;
        }
        r
    }

    /// The `N` variables at `values`: entry `k` is variable number `k`.
    pub fn active_vector(values: &Vec<T>) -> (r: Vec<Self>)
        requires
            values@.len() == N,
        ensures
            r@.len() == N,
            forall|k: int|
                0 <= k < N ==> #[trigger] r@[k]@ == variable_model(values@[k], k, N as nat),
    {
        Self::active_from_slice(values.as_slice())
    }

    /// The `N` variables at `values`: entry `k` is variable number `k`.
    pub fn active_from_slice(values: &[T]) -> (r: Vec<Self>)
        requires
            values@.len() == N,
        ensures
            r@.len() == N,
            forall|k: int|
                0 <= k < N ==> #[trigger] r@[k]@ == variable_model(values@[k], k, N as nat),
    {
        let mut r: Vec<Self> = Vec::new();
        let mut i: usize = 0;
        while i < N
            invariant
                i <= N,
                values@.len() == N,
                r@.len() == i,
                forall|k: int|
                    0 <= k < i ==> #[trigger] r@[k]@ == variable_model(values@[k], k, N as nat),
            decreases N - i,
        {
            r.push(Self::active_scalar_with_index(values[i], i));
            i += 1;
        }
        r
    }

    fn grad_at(rule: &Rule<T>, a: &Self, b: &Self, i: usize) -> (r: T)
        requires
            i < N,
        ensures
            r == grad_entry(*rule, a@, b@, i as int),
    {
        proof {
            use_type_invariant(a);
            use_type_invariant(b);
        }
        let ag = a.grad[i];
        let bg = b.grad[i];
        match rule {
            Rule::Negate => ag.neg(),
            Rule::ScaleLeft(s) => s.mul(&ag),
            Rule::ScaleRight(s) => ag.mul(s),
            Rule::DivideBy(s) => ag.div(s),
            Rule::Sum => ag.add(&bg),
            Rule::Difference => ag.sub(&bg),
            Rule::Chain(d, _) => d.mul(&ag),
            Rule::Square(two) => two.mul(&a.value).mul(&ag),
            Rule::Product => ag.mul(&b.value).add(&a.value.mul(&bg)),
            Rule::Quotient(_) => b.value.mul(&ag).sub(&a.value.mul(&bg)).div(&b.value.mul(&b.value)),
            Rule::Reciprocal(c, _) => c.neg().div(&b.value.mul(&b.value)).mul(&bg),
            Rule::Atan2(v) => b.value.mul(&ag).sub(&a.value.mul(&bg)).div(v),
            Rule::Atan2Slope(two) => two.mul(&b.value.mul(&bg).add(&a.value.mul(&ag))),
        }
    }

    fn hess_at(rule: &Rule<T>, a: &Self, b: &Self, g: &Vec<T>, x: &Vec<T>, i: usize, j: usize) -> (r: T)
        requires
            i < N,
            j < N,
            g@.len() == N,
            *rule is Atan2 ==> x@.len() == N,
        ensures
            r == hess_entry(*rule, a@, b@, g@, x@, i as int, j as int),
    {
        proof {
            use_type_invariant(a);
            use_type_invariant(b);
            assert(a@.hess[i as int] == a.hess@[i as int]@);
            assert(b@.hess[i as int] == b.hess@[i as int]@);
            assert(a@.hess[j as int] == a.hess@[j as int]@);
            assert(b@.hess[j as int] == b.hess@[j as int]@);
        }
        let ah = a.hess[i][j];
        let bh = b.hess[i][j];
        match rule {
            Rule::Negate => ah.neg(),
            Rule::ScaleLeft(s) => s.mul(&ah),
            Rule::ScaleRight(s) => ah.mul(s),
            Rule::DivideBy(s) => ah.div(s),
            Rule::Sum => ah.add(&bh),
            Rule::Difference => ah.sub(&bh),
            Rule::Chain(d, d2) => d2.mul(&a.grad[i]).mul(&a.grad[j]).add(&d.mul(&ah)),
            Rule::Square(two) => two.mul(&a.value.mul(&ah).add(&a.grad[i].mul(&a.grad[j]))),
            Rule::Product => b.value.mul(&ah).add(&a.value.mul(&bh)).add(
                &a.grad[i].mul(&b.grad[j]),
            ).add(&b.grad[i].mul(&a.grad[j])),
            Rule::Quotient(q) => ah.sub(&g[i].mul(&b.grad[j])).sub(&b.grad[i].mul(&g[j])).sub(
                &q.mul(&bh),
            ).div(&b.value),
            Rule::Reciprocal(_, q) => g[i].neg().mul(&b.grad[j]).sub(&b.grad[i].mul(&g[j])).sub(
                &q.mul(&bh),
            ).div(&b.value),
            Rule::Atan2(v) => b.value.mul(&ah).sub(&a.value.mul(&bh)).add(
                &a.grad[i].mul(&b.grad[j]),
            ).sub(&b.grad[i].mul(&a.grad[j])).sub(&g[i].mul(&x[j])).div(v),
            Rule::Atan2Slope(_) => ah,
        }
    }

    /// The gradient that `rule` gives.
    pub(crate) fn build_grad(rule: &Rule<T>, a: &Self, b: &Self) -> (r: Vec<T>)
        ensures
            r@ == grad_of(*rule, a@, b@, N as nat),
    {
        let mut r: Vec<T> = Vec::new();
        let mut i: usize = 0;
        while i < N
            invariant
                i <= N,
                r@.len() == i,
                forall|k: int| 0 <= k < i ==> #[trigger] r@[k] == grad_entry(*rule, a@, b@, k),
            decreases N - i,
        {
            r.push(Self::grad_at(rule, a, b, i));
            i += 1;
        }
        assert(r@ =~= grad_of(*rule, a@, b@, N as nat));
        r
    }

    /// The result of `rule` with value `value`; `x` is used by `atan2` alone.
    pub(crate) fn combine(rule: Rule<T>, value: T, a: &Self, b: &Self, x: &Vec<T>) -> (r: Self)
        requires
            rule is Atan2 ==> x@.len() == N,
        ensures
            r@ == apply(rule, value, a@, b@, x@, N as nat),
    {
        let g = Self::build_grad(&rule, a, b);
        let ghost f = |p: int, q: int| hess_entry(rule, a@, b@, g@, x@, p, q);
        let mut rows: Vec<Vec<T>> = Vec::new();
        let mut i: usize = 0;
        while i < N
            invariant
                i <= N,
                g@.len() == N,
                rule is Atan2 ==> x@.len() == N,
                g@ == grad_of(rule, a@, b@, N as nat),
                f == (|p: int, q: int| hess_entry(rule, a@, b@, g@, x@, p, q)),
                rows@.len() == i,
                forall|k: int| 0 <= k < i ==> #[trigger] rows@[k]@.len() == N,
                forall|k: int, l: int|
                    0 <= k < i && 0 <= l < N ==> #[trigger] rows@[k]@[l] == (if k <= l {
                        f(k, l)
                    } else {
                        f(l, k)
                    }),
            decreases N - i,
        {
            let mut row: Vec<T> = Vec::new();
            let mut j: usize = 0;
            while j < N
                invariant
                    i < N,
                    j <= N,
                    g@.len() == N,
                    rule is Atan2 ==> x@.len() == N,
                    f == (|p: int, q: int| hess_entry(rule, a@, b@, g@, x@, p, q)),
                    rows@.len() == i,
                    forall|k: int| 0 <= k < i ==> #[trigger] rows@[k]@.len() == N,
                    forall|k: int, l: int|
                        0 <= k < i && 0 <= l < N ==> #[trigger] rows@[k]@[l] == (if k <= l {
                            f(k, l)
                        } else {
                            f(l, k)
                        }),
                    row@.len() == j,
                    forall|l: int|
                        0 <= l < j ==> #[trigger] row@[l] == (if i <= l {
                            f(i as int, l)
                        } else {
                            f(l, i as int)
                        }),
                decreases N - j,
            {
                let e = if i <= j {
                    Self::hess_at(&rule, a, b, &g, x, i, j)
                } else {
                    rows[j][i]
                };
                row.push(e);
                j += 1;
            }
            rows.push(row);
            i += 1;
        }
        let ghost m = mirrored(N as nat, f);
        assert(rows@.map_values(|row: Vec<T>| row@) =~= m) by {
            assert forall|k: int| 0 <= k < N implies #[trigger] rows@[k]@ =~= m[k] by {}
        }
        Ad { value, grad: g, hess: rows }
    }
}

impl<T: Real, const N: usize> Ad<T, N> {
    /// The chain rule: `g(a)` for a function `g` with `g(a.value) = value`,
    /// `g'(a.value) = d` and `g''(a.value) = d2`.
    pub fn chain(value: T, d: T, d2: T, a: &Self) -> (r: Self)
        ensures
            r@ == chain_model(value, d, d2, a@, N as nat),
    {
        Self::combine(Rule::Chain(d, d2), value, a, a, &Vec::new())
    }

    /// The same gradient and Hessian with another value.
    pub(crate) fn with_value(&self, value: T) -> (r: Self)
        ensures
            r@ == (AdModel { value, grad: self@.grad, hess: self@.hess }),
    {
        proof {
            use_type_invariant(self);
        }
        let g = self.grad();
        let h = self.hess();
        Ad { value, grad: g, hess: h }
    }
}

impl<T: Real> Ad<T, 1> {
    /// The single variable at `value`: gradient one, Hessian zero.
    pub fn active_scalar(value: T) -> (r: Self)
        ensures
            r@ == variable_model(value, 0, 1),
    {
        Self::active_scalar_with_index(value, 0)
    }

    /// A one-variable AD value with the given value and derivatives.
    pub fn given_scalar(value: T, grad: T, hess: T) -> (r: Self)
        ensures
            r@ == (AdModel { value, grad: seq![grad], hess: seq![seq![hess]] }),
    {
        let g = vec![grad];
        let h = vec![vec![hess]];
        let r = Ad { value, grad: g, hess: h };
        assert(r@.grad =~= seq![grad]);
        assert(r@.hess[0] =~= seq![hess]);
        assert(r@.hess =~= seq![seq![hess]]);
        r
    }
}

/// A copy of `v`.
fn copy_vec<T: Copy>(v: &Vec<T>) -> (r: Vec<T>)
    ensures
        r@ == v@,
{
    let mut r: Vec<T> = Vec::new();
    let mut i: usize = 0;
    while i < v.len()
        invariant
            i <= v@.len(),
            r@ == v@.subrange(0, i as int),
        decreases v@.len() - i,
    {
        r.push(v[i]);
        i += 1;
    }
    assert(r@ =~= v@);
    r
}

/// `n` copies of `x`.
fn filled<T: Copy>(x: T, n: usize) -> (r: Vec<T>)
    ensures
        r@ == Seq::new(n as nat, |i: int| x),
{
    let mut r: Vec<T> = Vec::new();
    let mut i: usize = 0;
    while i < n
        invariant
            i <= n,
            r@ == Seq::new(i as nat, |k: int| x),
        decreases n - i,
    {
        r.push(x);
        i += 1;
        assert(r@ =~= Seq::new(i as nat, |k: int| x));
    }
    r
}

} // verus!
