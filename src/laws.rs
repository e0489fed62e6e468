use vstd::prelude::*;
use crate::ad::{apply, constant_model, AdModel, Rule};
use crate::ops::{add_model, mul_model};
use crate::scalar::Real;
use crate::sparse::{
    indices_below,
    scatter,
    seeded_all,
    total_grad,
    total_trips,
    total_value,
    tuples,
    zeros,
    Objective,
};

verus! {

/// Every propagation rule gives a symmetric Hessian: whatever the operands,
/// the result of [`apply`] is well formed, so `hess[i][j] == hess[j][i]`.
pub proof fn lemma_hessian_symmetric<T: Real>(
    rule: Rule<T>,
    value: T,
    a: AdModel<T>,
    b: AdModel<T>,
    x: Seq<T>,
    n: nat,
)
    ensures
        apply(rule, value, a, b, x, n).wf(n),
        forall|i: int, j: int|
            0 <= i < n && 0 <= j < n ==> #[trigger] apply(rule, value, a, b, x, n).hess[i][j]
                == apply(rule, value, a, b, x, n).hess[j][i],
{
}

/// Assembling the terms of one list of tuples and then those of another into
/// the same accumulators gives what assembling the joined list does: the
/// value and gradient continue from where the first pass left them, and the
/// triplets of the joined list are those of the first list followed by those
/// of the second.
pub proof fn lemma_assembly_additive<T: Real>(
    v: T,
    g: Seq<T>,
    trips: Seq<(usize, usize, T)>,
    inds1: Seq<Seq<usize>>,
    ls1: Seq<AdModel<T>>,
    inds2: Seq<Seq<usize>>,
    ls2: Seq<AdModel<T>>,
)
    requires
        inds1.len() == ls1.len(),
        inds2.len() == ls2.len(),
    ensures
        total_value(v, ls1 + ls2) == total_value(total_value(v, ls1), ls2),
        total_grad(g, inds1 + inds2, ls1 + ls2) == total_grad(
            total_grad(g, inds1, ls1),
            inds2,
            ls2,
        ),
        total_trips(trips, inds1 + inds2, ls1 + ls2) == total_trips(
            total_trips(trips, inds1, ls1),
            inds2,
            ls2,
        ),
        total_trips(Seq::empty(), inds1 + inds2, ls1 + ls2) == total_trips(
            Seq::empty(),
            inds1,
            ls1,
        ) + total_trips(Seq::empty(), inds2, ls2),
    decreases ls2.len(),
{
    if ls2.len() == 0 {
        assert(ls1 + ls2 =~= ls1);
        assert(inds1 + inds2 =~= inds1);
        assert(total_trips(Seq::empty(), inds1, ls1) + Seq::<(usize, usize, T)>::empty()
            =~= total_trips(Seq::empty(), inds1, ls1));
    } else {
        let t2 = ls2.len() - 1;
        let t = ls1.len() + t2;
        lemma_assembly_additive(v, g, trips, inds1, ls1, inds2.take(t2), ls2.drop_last());
        assert((ls1 + ls2).drop_last() =~= ls1 + ls2.drop_last());
        assert((inds1 + inds2).take(t) =~= inds1 + inds2.take(t2));
        assert((ls1 + ls2).last() == ls2.last());
        assert((inds1 + inds2)[t] == inds2[t2]);
        assert((ls1 + ls2)[t] == ls2[t2]);
        let e = Seq::<(usize, usize, T)>::empty();
        assert(total_trips(e, inds1 + inds2, ls1 + ls2) =~= total_trips(e, inds1, ls1) + total_trips(
            e,
            inds2,
            ls2,
        )) by {
            lemma_trips_prefix(total_trips(e, inds1, ls1), inds2, ls2);
        }
    }
}

/// Starting the triplet list from `p` instead of from nothing puts `p` in front.
proof fn lemma_trips_prefix<T: Real>(
    p: Seq<(usize, usize, T)>,
    inds: Seq<Seq<usize>>,
    ls: Seq<AdModel<T>>,
)
    requires
        inds.len() == ls.len(),
    ensures
        total_trips(p, inds, ls) == p + total_trips(Seq::empty(), inds, ls),
    decreases ls.len(),
{
    if ls.len() == 0 {
        assert(p + Seq::<(usize, usize, T)>::empty() =~= p);
    } else {
        let t = ls.len() - 1;
        lemma_trips_prefix(p, inds.take(t), ls.drop_last());
        let q = total_trips(Seq::<(usize, usize, T)>::empty(), inds.take(t), ls.drop_last());
        let l = crate::sparse::local_trips(inds[t], ls[t].hess);
        assert(p + q + l =~= p + (q + l));
    }
}

/// Addition is associative and has zero as its identity on both sides.
pub open spec fn sum_laws<T: Real>() -> bool {
    &&& forall|x: T, y: T, z: T| #[trigger] x.add_spec(y).add_spec(z) == x.add_spec(y.add_spec(z))
    &&& forall|x: T| #[trigger] T::zero_spec().add_spec(x) == x
    &&& forall|x: T| #[trigger] x.add_spec(T::zero_spec()) == x
}

/// The entrywise sum of `g` and `h`.
pub open spec fn entrywise_sum<T: Real>(g: Seq<T>, h: Seq<T>) -> Seq<T> {
    Seq::new(g.len(), |k: int| g[k].add_spec(h[k]))
}

/// Every index of every tuple lies below `len`.
pub open spec fn tuples_below(inds: Seq<Seq<usize>>, len: nat) -> bool {
    forall|t: int, i: int| 0 <= t < inds.len() && 0 <= i < inds[t].len() ==> #[trigger] inds[t][i] < len
}

/// Where addition obeys [`sum_laws`], assembling two lists of tuples
/// separately from fresh accumulators and adding the results gives what
/// assembling the joined list does: the value is the sum of the two values
/// and the gradient the entrywise sum of the two gradients. (The triplets of
/// the joined list are those of the two lists in turn, without any law: see
/// [`lemma_assembly_additive`].)
pub proof fn lemma_assembly_sums<T: Real>(
    len: nat,
    inds1: Seq<Seq<usize>>,
    ls1: Seq<AdModel<T>>,
    inds2: Seq<Seq<usize>>,
    ls2: Seq<AdModel<T>>,
)
    requires
        sum_laws::<T>(),
        inds1.len() == ls1.len(),
        inds2.len() == ls2.len(),
        tuples_below(inds1, len),
        tuples_below(inds2, len),
    ensures
        total_value(T::zero_spec(), ls1 + ls2) == total_value(T::zero_spec(), ls1).add_spec(
            total_value(T::zero_spec(), ls2),
        ),
        total_grad(zeros(len), inds1 + inds2, ls1 + ls2) == entrywise_sum(
            total_grad(zeros(len), inds1, ls1),
            total_grad(zeros(len), inds2, ls2),
        ),
{
    let z = T::zero_spec();
    lemma_assembly_additive(z, zeros(len), Seq::empty(), inds1, ls1, inds2, ls2);
    lemma_value_from(total_value(z, ls1), ls2);
    lemma_grad_len(zeros::<T>(len), inds1, ls1);
    lemma_grad_from(total_grad(zeros(len), inds1, ls1), inds2, ls2, len);
}

/// What [`Objective::compute`] (and [`Objective::value`], [`Objective::grad`],
/// [`Objective::hess_trips`]) give on the joined list of tuples `a` then `b`,
/// against what they give on each list: the triplets are those of `a`
/// followed by those of `b`; and where addition obeys [`sum_laws`], the
/// value is the sum of the two values and the gradient the entrywise sum of
/// the two gradients.
pub proof fn lemma_objective_additive<T: Real, const N: usize, O: Objective<T, N>>(
    obj: &O,
    x: Seq<T>,
    a: Seq<[usize; N]>,
    b: Seq<[usize; N]>,
    args: &O::EvalArgs,
)
    requires
        indices_below(a, x.len()),
        indices_below(b, x.len()),
    ensures
        ({
            let la = seeded_all(x, a).map_values(|v: Seq<AdModel<T>>| obj.eval_spec(v, args));
            let lb = seeded_all(x, b).map_values(|v: Seq<AdModel<T>>| obj.eval_spec(v, args));
            let lu = seeded_all(x, a + b).map_values(|v: Seq<AdModel<T>>| obj.eval_spec(v, args));
            &&& total_trips(Seq::empty(), tuples(a + b), lu) == total_trips(
                Seq::empty(),
                tuples(a),
                la,
            ) + total_trips(Seq::empty(), tuples(b), lb)
            &&& sum_laws::<T>() ==> total_value(T::zero_spec(), lu) == total_value(
                T::zero_spec(),
                la,
            ).add_spec(total_value(T::zero_spec(), lb))
            &&& sum_laws::<T>() ==> total_grad(zeros(x.len()), tuples(a + b), lu) == entrywise_sum(
                total_grad(zeros(x.len()), tuples(a), la),
                total_grad(zeros(x.len()), tuples(b), lb),
            )
        }),
{
    let la = seeded_all(x, a).map_values(|v: Seq<AdModel<T>>| obj.eval_spec(v, args));
    let lb = seeded_all(x, b).map_values(|v: Seq<AdModel<T>>| obj.eval_spec(v, args));
    let lu = seeded_all(x, a + b).map_values(|v: Seq<AdModel<T>>| obj.eval_spec(v, args));
    assert(lu =~= la + lb);
    assert(tuples(a + b) =~= tuples(a) + tuples(b));
    lemma_assembly_additive(T::zero_spec(), zeros(x.len()), Seq::empty(), tuples(a), la, tuples(b), lb);
    if sum_laws::<T>() {
        lemma_tuples_of(a, x.len());
        lemma_tuples_of(b, x.len());
        lemma_assembly_sums(x.len(), tuples(a), la, tuples(b), lb);
    }
}

/// Index tuples below `len`, as sequences, stay below `len`.
proof fn lemma_tuples_of<const N: usize>(inds: Seq<[usize; N]>, len: nat)
    requires
        indices_below(inds, len),
    ensures
        tuples_below(tuples(inds), len),
{
    assert forall|t: int, i: int|
        0 <= t < tuples(inds).len() && 0 <= i < tuples(inds)[t].len() implies #[trigger] tuples(
        inds,
    )[t][i] < len by {
        assert(tuples(inds)[t] == inds[t]@);
        assert(inds[t]@.len() == N);
    }
}

/// Summing from `v` is `v` plus the sum from zero.
proof fn lemma_value_from<T: Real>(v: T, ls: Seq<AdModel<T>>)
    requires
        sum_laws::<T>(),
    ensures
        total_value(v, ls) == v.add_spec(total_value(T::zero_spec(), ls)),
    decreases ls.len(),
{
    if ls.len() > 0 {
        lemma_value_from(v, ls.drop_last());
    }
}

/// A prefix of tuples below `len` stays below `len`.
proof fn lemma_tuples_take(inds: Seq<Seq<usize>>, len: nat, t: int)
    requires
        0 <= t <= inds.len(),
        tuples_below(inds, len),
    ensures
        tuples_below(inds.take(t), len),
{
    let it = inds.take(t);
    assert forall|u: int, i: int| 0 <= u < it.len() && 0 <= i < it[u].len() implies #[trigger] it[u][i]
        < len by {
        assert(it[u] == inds[u]);
    }
}

/// Scattering keeps the length.
proof fn lemma_scatter_len<T: Real>(g: Seq<T>, ind: Seq<usize>, lg: Seq<T>, k: nat)
    requires
        k <= ind.len(),
        forall|i: int| 0 <= i < k ==> #[trigger] ind[i] < g.len(),
    ensures
        scatter(g, ind, lg, k).len() == g.len(),
    decreases k,
{
    if k > 0 {
        lemma_scatter_len(g, ind, lg, (k - 1) as nat);
        assert(ind[k - 1] < g.len());
    }
}

/// Assembling keeps the length of the gradient.
proof fn lemma_grad_len<T: Real>(g: Seq<T>, inds: Seq<Seq<usize>>, ls: Seq<AdModel<T>>)
    requires
        inds.len() == ls.len(),
        tuples_below(inds, g.len()),
    ensures
        total_grad(g, inds, ls).len() == g.len(),
    decreases ls.len(),
{
    if ls.len() > 0 {
        let t = ls.len() - 1;
        lemma_tuples_take(inds, g.len(), t);
        lemma_grad_len(g, inds.take(t), ls.drop_last());
        assert forall|i: int| 0 <= i < inds[t].len() implies #[trigger] inds[t][i] < g.len() by {
            assert(inds[t][i] < g.len());
        }
        lemma_scatter_len(total_grad(g, inds.take(t), ls.drop_last()), inds[t], ls[t].grad, inds[t].len());
    }
}

/// Scattering into `g + h` is `g` plus scattering into `h`.
proof fn lemma_scatter_sum<T: Real>(g: Seq<T>, h: Seq<T>, ind: Seq<usize>, lg: Seq<T>, k: nat)
    requires
        sum_laws::<T>(),
        g.len() == h.len(),
        k <= ind.len(),
        forall|i: int| 0 <= i < k ==> #[trigger] ind[i] < g.len(),
    ensures
        scatter(entrywise_sum(g, h), ind, lg, k) == entrywise_sum(g, scatter(h, ind, lg, k)),
    decreases k,
{
    if k > 0 {
        lemma_scatter_sum(g, h, ind, lg, (k - 1) as nat);
        lemma_scatter_len(h, ind, lg, (k - 1) as nat);
        let q = scatter(h, ind, lg, (k - 1) as nat);
        let at = ind[k - 1] as int;
        assert(g[at].add_spec(q[at]).add_spec(lg[k - 1]) == g[at].add_spec(q[at].add_spec(lg[k - 1])));
        assert(scatter(entrywise_sum(g, h), ind, lg, k) =~= entrywise_sum(g, scatter(h, ind, lg, k)));
    }
}

/// Assembling from `g` is `g` plus assembling from zeros.
proof fn lemma_grad_from<T: Real>(g: Seq<T>, inds: Seq<Seq<usize>>, ls: Seq<AdModel<T>>, len: nat)
    requires
        sum_laws::<T>(),
        g.len() == len,
        inds.len() == ls.len(),
        tuples_below(inds, len),
    ensures
        total_grad(g, inds, ls) == entrywise_sum(g, total_grad(zeros(len), inds, ls)),
    decreases ls.len(),
{
    if ls.len() == 0 {
        assert(entrywise_sum(g, zeros::<T>(len)) =~= g);
    } else {
        let t = ls.len() - 1;
        let it = inds.take(t);
        lemma_tuples_take(inds, len, t);
        lemma_grad_from(g, it, ls.drop_last(), len);
        lemma_grad_len(zeros::<T>(len), it, ls.drop_last());
        let h = total_grad(zeros::<T>(len), it, ls.drop_last());
        assert forall|i: int| 0 <= i < inds[t].len() implies #[trigger] inds[t][i] < g.len() by {
            assert(inds[t][i] < len);
        }
        lemma_scatter_sum(g, h, inds[t], ls[t].grad, inds[t].len());
    }
}

/// Zero is an identity of `+` and annihilates under `*`, and one is an
/// identity of `*`, for every number.
pub open spec fn unit_laws<T: Real>() -> bool {
    forall|x: T|
        {
            &&& #[trigger] T::zero_spec().add_spec(x) == x
            &&& x.add_spec(T::zero_spec()) == x
            &&& T::one_spec().mul_spec(x) == x
            &&& x.mul_spec(T::one_spec()) == x
            &&& T::zero_spec().mul_spec(x) == T::zero_spec()
            &&& x.mul_spec(T::zero_spec()) == T::zero_spec()
        }
}

/// Where the numbers obey [`unit_laws`], the constant zero is an identity of
/// AD addition and the constant one an identity of AD multiplication, on
/// both sides: value, gradient and Hessian come out unchanged.
pub proof fn lemma_zero_one_identities<T: Real>(a: AdModel<T>, n: nat)
    requires
        unit_laws::<T>(),
        a.wf(n),
    ensures
        add_model(constant_model(T::zero_spec(), n), a, n) == a,
        add_model(a, constant_model(T::zero_spec(), n), n) == a,
        mul_model(constant_model(T::one_spec(), n), a, n) == a,
        mul_model(a, constant_model(T::one_spec(), n), n) == a,
{
    let z = constant_model(T::zero_spec(), n);
    let o = constant_model(T::one_spec(), n);
    lemma_units_at(a.value);
    let r1 = add_model(z, a, n);
    let r2 = add_model(a, z, n);
    let r3 = mul_model(o, a, n);
    let r4 = mul_model(a, o, n);
    assert forall|i: int| 0 <= i < n implies #[trigger] r1.grad[i] == a.grad[i] && r2.grad[i]
        == a.grad[i] && r3.grad[i] == a.grad[i] && r4.grad[i] == a.grad[i] by {
        lemma_units_at(a.grad[i]);
    }
    assert(r1.grad =~= a.grad);
    assert(r2.grad =~= a.grad);
    assert(r3.grad =~= a.grad);
    assert(r4.grad =~= a.grad);
    assert forall|i: int| 0 <= i < n implies #[trigger] r1.hess[i] =~= a.hess[i] && r2.hess[i]
        =~= a.hess[i] && r3.hess[i] =~= a.hess[i] && r4.hess[i] =~= a.hess[i] by {
        assert forall|j: int| 0 <= j < n implies #[trigger] r1.hess[i][j] == a.hess[i][j]
            && r2.hess[i][j] == a.hess[i][j] && r3.hess[i][j] == a.hess[i][j] && r4.hess[i][j]
            == a.hess[i][j] by {
            lemma_units_at(a.hess[i][j]);
            lemma_units_at(a.hess[j][i]);
            lemma_units_at(a.grad[i]);
            lemma_units_at(a.grad[j]);
            lemma_units_at(a.value);
        }
    }
    assert(r1.hess =~= a.hess);
    assert(r2.hess =~= a.hess);
    assert(r3.hess =~= a.hess);
    assert(r4.hess =~= a.hess);
}

/// [`unit_laws`] at one number.
proof fn lemma_units_at<T: Real>(x: T)
    requires
        unit_laws::<T>(),
    ensures
        T::zero_spec().add_spec(x) == x,
        x.add_spec(T::zero_spec()) == x,
        T::one_spec().mul_spec(x) == x,
        x.mul_spec(T::one_spec()) == x,
        T::zero_spec().mul_spec(x) == T::zero_spec(),
        x.mul_spec(T::zero_spec()) == T::zero_spec(),
{
    assert(T::zero_spec().add_spec(x) == x);
}

} // verus!
