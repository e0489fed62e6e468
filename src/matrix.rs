use vstd::prelude::*;
use crate::ad::{constant_model, Ad, AdError, AdModel};
use crate::ops::{
    abs_model,
    add_model,
    checked,
    mul_model,
    num,
    powf_model,
    powi_model,
    square_model,
    sqrt_model,
    sub_model,
};
use crate::scalar::Real;

verus! {

/// The largest matrix whose determinant is offered: the cost of carrying
/// Hessians through a cofactor expansion grows with the factorial of the size.
pub const MAX_DET_DIM: usize = 6;

/// The models of a matrix of AD values, row by row.
pub open spec fn mat_model<T: Real, const N: usize>(m: Seq<Vec<Ad<T, N>>>) -> Seq<Seq<AdModel<T>>> {
    m.map_values(|row: Vec<Ad<T, N>>| row@.map_values(|x: Ad<T, N>| x@))
}

/// The models of a vector of AD values.
pub open spec fn vec_model<T: Real, const N: usize>(v: Seq<Ad<T, N>>) -> Seq<AdModel<T>> {
    v.map_values(|x: Ad<T, N>| x@)
}

/// Every row has `m.len()` entries.
pub open spec fn is_square<A>(m: Seq<Vec<A>>) -> bool {
    forall|i: int| 0 <= i < m.len() ==> #[trigger] m[i]@.len() == m.len()
}

/// `m` without its first row and without column `j`.
pub open spec fn minor<A>(m: Seq<Seq<A>>, j: int) -> Seq<Seq<A>> {
    Seq::new((m.len() - 1) as nat, |r: int| m[r + 1].remove(j))
}

/// The determinant by cofactor expansion along the first row; the empty
/// matrix has determinant one and a `1 x 1` matrix its entry.
pub open spec fn det_model<T: Real>(m: Seq<Seq<AdModel<T>>>, n: nat) -> AdModel<T>
    decreases m.len(), m.len(),
{
    if m.len() == 0 {
        constant_model(T::one_spec(), n)
    } else if m.len() == 1 {
        m[0][0]
    } else {
        expansion(m, (m.len() - 1) as nat, n)
    }
}

/// The first `k + 1` terms of the expansion along the first row, with
/// alternating signs, added from the left.
pub open spec fn expansion<T: Real>(m: Seq<Seq<AdModel<T>>>, k: nat, n: nat) -> AdModel<T>
    decreases m.len(), k,
{
    let term = if 0 < m.len() {
        mul_model(m[0][k as int], det_model(minor(m, k as int), n), n)
    } else {
        constant_model(T::zero_spec(), n)
    };
    if k == 0 {
        term
    } else if k % 2 == 1 {
        sub_model(expansion(m, (k - 1) as nat, n), term, n)
    } else {
        add_model(expansion(m, (k - 1) as nat, n), term, n)
    }
}

/// What each entry adds to a norm.
pub enum NormTerm {
    /// The absolute value.
    Abs,
    /// The square.
    Square,
}

/// The term that `e` adds.
pub open spec fn term_model<T: Real>(t: NormTerm, e: AdModel<T>, n: nat) -> AdModel<T> {
    match t {
        NormTerm::Abs => abs_model(e, n),
        NormTerm::Square => square_model(e, n),
    }
}

/// The sum, from the left and starting at zero, of the terms of `es`.
pub open spec fn sum_model<T: Real>(t: NormTerm, es: Seq<AdModel<T>>, n: nat) -> AdModel<T>
    decreases es.len(),
{
    if es.len() == 0 {
        constant_model(T::zero_spec(), n)
    } else {
        add_model(sum_model(t, es.drop_last(), n), term_model(t, es.last(), n), n)
    }
}

/// The sum, from the left and starting at zero, of the `k`-th powers of `es`.
pub open spec fn power_sum_model<T: Real>(es: Seq<AdModel<T>>, k: i32, n: nat) -> AdModel<T>
    decreases es.len(),
{
    if es.len() == 0 {
        constant_model(T::zero_spec(), n)
    } else {
        add_model(power_sum_model(es.drop_last(), k, n), powi_model(es.last(), k, n), n)
    }
}

/// Some entry has the value zero.
pub open spec fn has_zero<T: Real>(es: Seq<AdModel<T>>) -> bool {
    exists|i: int| 0 <= i < es.len() && (#[trigger] es[i]).value.is_zero_spec()
}

/// The running maximum of the absolute values of `es`, starting from `first`.
pub open spec fn max_abs_model<T: Real>(first: AdModel<T>, es: Seq<AdModel<T>>, n: nat) -> AdModel<T>
    decreases es.len(),
{
    if es.len() == 0 {
        first
    } else {
        let m = max_abs_model(first, es.drop_last(), n);
        let a = abs_model(es.last(), n);
        if a.value.lt_spec(m.value) {
            m
        } else {
            a
        }
    }
}

/// Reading the values out of a matrix of AD values.
pub trait GetValue<T> {
    /// The values, row by row.
    spec fn value_spec(&self) -> Seq<Seq<T>>;

    /// The values, row by row.
    fn value(&self) -> (r: Vec<Vec<T>>)
        ensures
            r@.map_values(|row: Vec<T>| row@) == self.value_spec(),
    ;
}

impl<T: Real, const N: usize> GetValue<T> for Vec<Vec<Ad<T, N>>> {
    open spec fn value_spec(&self) -> Seq<Seq<T>> {
        self@.map_values(|row: Vec<Ad<T, N>>| row@.map_values(|x: Ad<T, N>| x@.value))
    }

    fn value(&self) -> (r: Vec<Vec<T>>) {
        let mut rows: Vec<Vec<T>> = Vec::new();
        let mut i: usize = 0;
        while i < self.len()
            invariant
                i <= self@.len(),
                rows@.len() == i,
                forall|k: int|
                    0 <= k < i ==> #[trigger] rows@[k]@ == self@[k]@.map_values(
                        |x: Ad<T, N>| x@.value,
                    ),
            decreases self@.len() - i,
        {
            let src = &self[i];
            let mut row: Vec<T> = Vec::new();
            let mut j: usize = 0;
            while j < src.len()
                invariant
                    j <= src@.len(),
                    row@.len() == j,
                    forall|l: int| 0 <= l < j ==> #[trigger] row@[l] == src@[l]@.value,
                decreases src@.len() - j,
            {
                row.push(src[j].value());
                j += 1;
            }
            assert(row@ =~= src@.map_values(|x: Ad<T, N>| x@.value));
            rows.push(row);
            i += 1;
        }
        assert(rows@.map_values(|row: Vec<T>| row@) =~= self.value_spec());
        rows
    }
}

/// `m` without its first row and without column `j`.
fn minor_of<T: Real, const N: usize>(m: &Vec<Vec<Ad<T, N>>>, j: usize) -> (r: Vec<Vec<Ad<T, N>>>)
    requires
        is_square(m@),
        j < m@.len(),
    ensures
        is_square(r@),
        r@.len() == m@.len() - 1,
        mat_model(r@) == minor(mat_model(m@), j as int),
{
    let ghost mm = mat_model(m@);
    let mut r: Vec<Vec<Ad<T, N>>> = Vec::new();
    let mut i: usize = 1;
    while i < m.len()
        invariant
            1 <= i <= m@.len(),
            j < m@.len(),
            is_square(m@),
            mm == mat_model(m@),
            r@.len() == i - 1,
            forall|k: int| 0 <= k < i - 1 ==> #[trigger] r@[k]@.len() == m@.len() - 1,
            forall|k: int|
                0 <= k < i - 1 ==> #[trigger] vec_model(r@[k]@) == mm[k + 1].remove(j as int),
        decreases m@.len() - i,
    {
        let src = &m[i];
        let mut row: Vec<Ad<T, N>> = Vec::new();
        let mut c: usize = 0;
        while c < src.len()
            invariant
                1 <= i < m@.len(),
                j < m@.len(),
                src@.len() == m@.len(),
                c <= src@.len(),
                row@.len() == if c <= j { c as int } else { c - 1 },
                forall|l: int|
                    0 <= l < row@.len() ==> #[trigger] row@[l]@ == src@[if l < j { l } else { l + 1 }]@,
            decreases src@.len() - c,
        {
            if c != j {
                row.push(src[c].copy());
            }
            c += 1;
        }
        assert(vec_model(row@) =~= mm[i as int].remove(j as int));
        r.push(row);
        i += 1;
    }
    assert(mat_model(r@) =~= minor(mm, j as int)) by {
        assert forall|k: int| 0 <= k < r@.len() implies #[trigger] mat_model(r@)[k] == minor(
            mm,
            j as int,
        )[k] by {
            assert(mat_model(r@)[k] =~= vec_model(r@[k]@));
        }
    }
    r
}

/// The determinant of a square matrix of size one or more.
fn det_rec<T: Real, const N: usize>(m: &Vec<Vec<Ad<T, N>>>) -> (r: Ad<T, N>)
    requires
        is_square(m@),
        m@.len() >= 1,
    ensures
        r@ == det_model(mat_model(m@), N as nat),
    decreases m@.len(),
{
    let ghost mm = mat_model(m@);
    let n = m.len();
    if n == 1 {
        return m[0][0].copy();
    }
    let first = &m[0];
    let mut acc = first[0].mul(&det_rec(&minor_of(m, 0)));
    let mut j: usize = 1;
    while j < n
        invariant
            n == m@.len(),
            n >= 2,
            1 <= j <= n,
            first@ == m@[0]@,
            is_square(m@),
            mm == mat_model(m@),
            acc@ == expansion(mm, (j - 1) as nat, N as nat),
        decreases n - j,
    {
        let t = first[j].mul(&det_rec(&minor_of(m, j)));
        if j % 2 == 1 {
            acc = acc.sub(&t);
        } else {
            acc = acc.add(&t);
        }
        j += 1;
    }
    acc
}

/// The determinant of a square matrix of AD values, by cofactor expansion.
/// Matrices larger than [`MAX_DET_DIM`] are refused before any work.
pub fn determinant<T: Real, const N: usize>(m: &Vec<Vec<Ad<T, N>>>) -> (r: Result<
    Ad<T, N>,
    AdError,
>)
    requires
        is_square(m@),
    ensures
        match r {
            Ok(d) => m@.len() <= MAX_DET_DIM && d@ == det_model(mat_model(m@), N as nat),
            Err(e) => m@.len() > MAX_DET_DIM && e == AdError::Unsupported,
        },
{
    if m.len() > MAX_DET_DIM {
        return Err(AdError::Unsupported);
    }
    if m.len() == 0 {
        return Ok(Ad::inactive_scalar(T::one()));
    }
    Ok(det_rec(m))
}

/// The sum of the terms of the entries of `v`, from the left, starting at zero.
fn norm_sum<T: Real, const N: usize>(t: NormTerm, v: &Vec<Ad<T, N>>) -> (r: Ad<T, N>)
    ensures
        r@ == sum_model(t, vec_model(v@), N as nat),
{
    let ghost es = vec_model(v@);
    let mut acc = Ad::inactive_scalar(T::zero());
    let mut i: usize = 0;
    while i < v.len()
        invariant
            i <= v@.len(),
            es == vec_model(v@),
            acc@ == sum_model(t, es.take(i as int), N as nat),
        decreases v@.len() - i,
    {
        let term = match t {
            NormTerm::Abs => v[i].abs(),
            NormTerm::Square => v[i].square(),
        };
        acc = acc.add(&term);
        proof {
            assert(es.take(i + 1).drop_last() =~= es.take(i as int));
        }
        i += 1;
    }
    assert(es.take(v@.len() as int) =~= es);
    acc
}

/// The sum of the absolute values of the entries.
pub fn l1_norm<T: Real, const N: usize>(v: &Vec<Ad<T, N>>) -> (r: Ad<T, N>)
    ensures
        r@ == sum_model(NormTerm::Abs, vec_model(v@), N as nat),
{
    norm_sum(NormTerm::Abs, v)
}

/// The sum of the squares of the entries.
pub fn l2_norm_squared<T: Real, const N: usize>(v: &Vec<Ad<T, N>>) -> (r: Ad<T, N>)
    ensures
        r@ == sum_model(NormTerm::Square, vec_model(v@), N as nat),
{
    norm_sum(NormTerm::Square, v)
}

/// The square root of the sum of the squares of the entries.
pub fn l2_norm<T: Real, const N: usize>(v: &Vec<Ad<T, N>>) -> (r: Result<Ad<T, N>, AdError>)
    ensures
        ({
            let s = sum_model(NormTerm::Square, vec_model(v@), N as nat);
            checked(r, s.value.lt_spec(T::zero_spec()), sqrt_model(s, N as nat))
        }),
{
    l2_norm_squared(v).sqrt()
}

/// The `k`-th root of the sum of the `k`-th powers of the entries. Fails when
/// a power fails (`0^0`, for `k = 0`) or the root does.
pub fn lk_norm<T: Real, const N: usize>(v: &Vec<Ad<T, N>>, k: u32) -> (r: Result<Ad<T, N>, AdError>)
    requires
        k <= i32::MAX,
    ensures
        ({
            let es = vec_model(v@);
            let s = power_sum_model(es, k as i32, N as nat);
            let e = T::one_spec().div_spec(num::<T>(k as i32));
            if k == 0 && has_zero(es) {
                r == Err::<Ad<T, N>, AdError>(AdError::Domain)
            } else {
                checked(r, s.value.is_zero_spec() && e.is_zero_spec(), powf_model(s, e, N as nat))
            }
        }),
{
    let ghost es = vec_model(v@);
    let p = k as i32;
    let mut acc = Ad::inactive_scalar(T::zero());
    let mut i: usize = 0;
    while i < v.len()
        invariant
            i <= v@.len(),
            p == k as i32,
            k <= i32::MAX,
            0 <= p,
            es == vec_model(v@),
            !(k == 0 && has_zero(es.take(i as int))),
            acc@ == power_sum_model(es.take(i as int), p, N as nat),
        decreases v@.len() - i,
    {
        match v[i].powi(p) {
            Ok(t) => {
                acc = acc.add(&t);
            },
            Err(e) => {
                assert(es[i as int] == v@[i as int]@);
                assert(es[i as int].value.is_zero_spec());
                assert(has_zero(es));
                return Err(e);
            },
        }
        proof {
            assert(es.take(i + 1).drop_last() =~= es.take(i as int));
            if k == 0 && has_zero(es.take(i + 1)) {
                let w = choose|w: int|
                    0 <= w < i + 1 && (#[trigger] es.take(i + 1)[w]).value.is_zero_spec();
                assert(w != i);
                assert(es.take(i as int)[w] == es.take(i + 1)[w]);
            }
        }
        i += 1;
    }
    assert(es.take(v@.len() as int) =~= es);
    acc.powf(T::one().div(&T::from_i32(p)))
}

/// The largest absolute value among the entries, compared by value; of
/// equal ones, the last.
pub fn linf_norm<T: Real, const N: usize>(v: &Vec<Ad<T, N>>) -> (r: Ad<T, N>)
    requires
        v@.len() > 0,
    ensures
        r@ == max_abs_model(abs_model(v@[0]@, N as nat), vec_model(v@), N as nat),
{
    let ghost es = vec_model(v@);
    let mut acc = v[0].abs();
    let mut i: usize = 0;
    while i < v.len()
        invariant
            0 < v@.len(),
            i <= v@.len(),
            es == vec_model(v@),
            acc@ == max_abs_model(abs_model(v@[0]@, N as nat), es.take(i as int), N as nat),
        decreases v@.len() - i,
    {
        acc = acc.max(&v[i].abs());
        proof {
            assert(es.take(i + 1).drop_last() =~= es.take(i as int));
        }
        i += 1;
    }
    assert(es.take(v@.len() as int) =~= es);
    acc
}

/// Every entry multiplied by the constant `factor`.
pub fn scale<T: Real, const N: usize>(v: &Vec<Ad<T, N>>, factor: T) -> (r: Vec<Ad<T, N>>)
    ensures
        r@.len() == v@.len(),
        forall|k: int|
            0 <= k < v@.len() ==> #[trigger] r@[k]@ == mul_model(
                constant_model(factor, N as nat),
                v@[k]@,
                N as nat,
            ),
{
    let f = Ad::inactive_scalar(factor);
    let mut r: Vec<Ad<T, N>> = Vec::new();
    let mut i: usize = 0;
    while i < v.len()
        invariant
            i <= v@.len(),
            f@ == constant_model(factor, N as nat),
            r@.len() == i,
            forall|k: int|
                0 <= k < i ==> #[trigger] r@[k]@ == mul_model(
                    constant_model(factor, N as nat),
                    v@[k]@,
                    N as nat,
                ),
        decreases v@.len() - i,
    {
        r.push(f.mul(&v[i]));
        i += 1;
    }
    r
}

} // verus!
