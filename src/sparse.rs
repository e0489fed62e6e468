use vstd::prelude::*;
use vstd::arithmetic::div_mod::lemma_fundamental_div_mod_converse;
use crate::ad::{variable_model, Ad, AdModel};
use crate::matrix::vec_model;
use crate::scalar::Real;

verus! {

/// Global value, gradient and Hessian triplets `(row, column, value)` of an
/// objective assembled from many local terms.
pub struct ComputedObjective<T> {
    pub value: T,
    pub grad: Vec<T>,
    pub hess_trips: Vec<(usize, usize, T)>,
}

/// The index tuples as sequences.
pub open spec fn tuples<const N: usize>(inds: Seq<[usize; N]>) -> Seq<Seq<usize>> {
    inds.map_values(|a: [usize; N]| a@)
}

/// Every index of every tuple lies below `len`.
pub open spec fn indices_below<const N: usize>(inds: Seq<[usize; N]>, len: nat) -> bool {
    forall|t: int, i: int| 0 <= t < inds.len() && 0 <= i < N ==> #[trigger] inds[t]@[i] < len
}

/// `g` after adding `lg[i]` to entry `ind[i]`, for `i` from `0` up to `k`.
pub open spec fn scatter<T: Real>(g: Seq<T>, ind: Seq<usize>, lg: Seq<T>, k: nat) -> Seq<T>
    decreases k,
{
    if k == 0 {
        g
    } else {
        let p = scatter(g, ind, lg, (k - 1) as nat);
        let at = ind[k - 1] as int;
        p.update(at, p[at].add_spec(lg[k - 1]))
    }
}

/// The triplets of one local Hessian `h` over the global indices `ind`: for
/// each local row `i` and, within it, each local column `j`, the triplet
/// `(ind[i], ind[j], h[i][j])`.
pub open spec fn local_trips<T>(ind: Seq<usize>, h: Seq<Seq<T>>) -> Seq<(usize, usize, T)> {
    let n = ind.len() as int;
    Seq::new((n * n) as nat, |k: int| (ind[k / n], ind[k % n], h[k / n][k % n]))
}

/// `v` plus the values of `locals`, added from the left.
pub open spec fn total_value<T: Real>(v: T, locals: Seq<AdModel<T>>) -> T
    decreases locals.len(),
{
    if locals.len() == 0 {
        v
    } else {
        total_value(v, locals.drop_last()).add_spec(locals.last().value)
    }
}

/// `g` after scattering the gradient of each local term `locals[t]` into the
/// entries `inds[t]`, additively and term after term.
pub open spec fn total_grad<T: Real>(g: Seq<T>, inds: Seq<Seq<usize>>, locals: Seq<AdModel<T>>) -> Seq<T>
    decreases locals.len(),
{
    if locals.len() == 0 {
        g
    } else {
        let t = locals.len() - 1;
        scatter(
            total_grad(g, inds.take(t), locals.drop_last()),
            inds[t],
            locals[t].grad,
            inds[t].len(),
        )
    }
}

/// `trips` followed by the triplets of each local term in turn.
pub open spec fn total_trips<T: Real>(
    trips: Seq<(usize, usize, T)>,
    inds: Seq<Seq<usize>>,
    locals: Seq<AdModel<T>>,
) -> Seq<(usize, usize, T)>
    decreases locals.len(),
{
    if locals.len() == 0 {
        trips
    } else {
        let t = locals.len() - 1;
        total_trips(trips, inds.take(t), locals.drop_last()) + local_trips(inds[t], locals[t].hess)
    }
}

/// `n` zeros.
pub open spec fn zeros<T: Real>(n: nat) -> Seq<T> {
    Seq::new(n, |i: int| T::zero_spec())
}

/// Adds the values of `locals` to `v`.
pub fn add_values<T: Real, const N: usize>(v: T, locals: &Vec<Ad<T, N>>) -> (r: T)
    ensures
        r == total_value(v, vec_model(locals@)),
{
    let ghost ls = vec_model(locals@);
    let mut acc = v;
    let mut t: usize = 0;
    while t < locals.len()
        invariant
            t <= locals@.len(),
            ls == vec_model(locals@),
            acc == total_value(v, ls.take(t as int)),
        decreases locals@.len() - t,
    {
        acc = acc.add(&locals[t].value());
        proof {
            assert(ls.take(t + 1).drop_last() =~= ls.take(t as int));
        }
        t += 1;
    }
    assert(ls.take(locals@.len() as int) =~= ls);
    acc
}

/// Adds the gradient of each `locals[t]` into `g` at the entries `inds[t]`.
pub fn add_grads<T: Real, const N: usize>(
    g: &mut Vec<T>,
    inds: &[[usize; N]],
    locals: &Vec<Ad<T, N>>,
)
    requires
        inds@.len() == locals@.len(),
        indices_below(inds@, old(g)@.len()),
    ensures
        final(g)@ == total_grad(old(g)@, tuples(inds@), vec_model(locals@)),
{
    let ghost g0 = g@;
    let ghost ls = vec_model(locals@);
    let ghost ts = tuples(inds@);
    let mut t: usize = 0;
    while t < locals.len()
        invariant
            t <= locals@.len(),
            inds@.len() == locals@.len(),
            indices_below(inds@, g0.len()),
            ls == vec_model(locals@),
            ts == tuples(inds@),
            g@.len() == g0.len(),
            g@ == total_grad(g0, ts.take(t as int), ls.take(t as int)),
        decreases locals@.len() - t,
    {
        let ind = inds[t];
        let a = &locals[t];
        proof {
            use_type_invariant(a);
        }
        let lg = a.grad();
        let ghost start = g@;
        let mut i: usize = 0;
        while i < N
            invariant
                i <= N,
                t < locals@.len(),
                inds@.len() == locals@.len(),
                indices_below(inds@, g0.len()),
                ind == inds@[t as int],
                lg@ == locals@[t as int]@.grad,
                lg@.len() == N,
                start.len() == g0.len(),
                g@.len() == g0.len(),
                g@ == scatter(start, ind@, lg@, i as nat),
            decreases N - i,
        {
            let at = ind[i];
            assert(inds@[t as int]@[i as int] < g0.len());
            let cur = g[at];
            g.set(at, cur.add(&lg[i]));
            i += 1;
        }
        proof {
            assert(ts.take(t + 1).take(t as int) =~= ts.take(t as int));
            assert(ls.take(t + 1).drop_last() =~= ls.take(t as int));
            assert(ts.take(t + 1)[t as int] == ind@);
            assert(ls.take(t + 1)[t as int] == locals@[t as int]@);
        }
        t += 1;
    }
    assert(ts.take(locals@.len() as int) =~= ts);
    assert(ls.take(locals@.len() as int) =~= ls);
}

/// Appends the Hessian triplets of each `locals[t]` over the indices `inds[t]`.
pub fn add_trips<T: Real, const N: usize>(
    trips: &mut Vec<(usize, usize, T)>,
    inds: &[[usize; N]],
    locals: &Vec<Ad<T, N>>,
)
    requires
        inds@.len() == locals@.len(),
    ensures
        final(trips)@ == total_trips(old(trips)@, tuples(inds@), vec_model(locals@)),
{
    let ghost t0 = trips@;
    let ghost ls = vec_model(locals@);
    let ghost ts = tuples(inds@);
    let mut t: usize = 0;
    while t < locals.len()
        invariant
            t <= locals@.len(),
            inds@.len() == locals@.len(),
            ls == vec_model(locals@),
            ts == tuples(inds@),
            trips@ == total_trips(t0, ts.take(t as int), ls.take(t as int)),
        decreases locals@.len() - t,
    {
        let ind = inds[t];
        let a = &locals[t];
        proof {
            use_type_invariant(a);
        }
        let h = a.hess();
        let ghost hm = locals@[t as int]@.hess;
        let ghost start = trips@;
        let ghost lt = local_trips(ind@, hm);
        assert(ind@.len() == N);
        assert(lt.len() == N * N);
        let mut i: usize = 0;
        while i < N
            invariant
                i <= N,
                h@.map_values(|row: Vec<T>| row@) == hm,
                hm.len() == N,
                forall|p: int| 0 <= p < N ==> #[trigger] hm[p].len() == N,
                lt == local_trips(ind@, hm),
                lt.len() == N * N,
                trips@.len() == start.len() + i * N,
                forall|k: int|
                    0 <= k < i * N ==> #[trigger] trips@[start.len() + k] == lt[k],
                forall|k: int| 0 <= k < start.len() ==> #[trigger] trips@[k] == start[k],
            decreases N - i,
        {
            let row = &h[i];
            assert(row@ == hm[i as int]);
            let mut j: usize = 0;
            while j < N
                invariant
                    i < N,
                    j <= N,
                    row@ == hm[i as int],
                    hm.len() == N,
                    forall|p: int| 0 <= p < N ==> #[trigger] hm[p].len() == N,
                    lt == local_trips(ind@, hm),
                    lt.len() == N * N,
                    trips@.len() == start.len() + i * N + j,
                    forall|k: int|
                        0 <= k < i * N + j ==> #[trigger] trips@[start.len() + k] == lt[k],
                    forall|k: int| 0 <= k < start.len() ==> #[trigger] trips@[k] == start[k],
                decreases N - j,
            {
                proof {
                    let k = i * N + j;
                    lemma_fundamental_div_mod_converse(k as int, N as int, i as int, j as int);
                    assert(i * N + j < N * N) by (nonlinear_arith)
                        requires
                            i < N,
                            j < N,
                    ;
                }
                trips.push((ind[i], ind[j], row[j]));
                j += 1;
            }
            proof {
                assert((i + 1) * N == i * N + N) by (nonlinear_arith);
            }
            i += 1;
        }
        proof {
            assert forall|k: int| start.len() <= k < trips@.len() implies trips@[k] == (start
                + lt)[k] by {
                let q = k - start.len();
                assert(trips@[start.len() + q] == lt[q]);
            }
            assert(trips@ =~= start + lt);
            assert(ts.take(t + 1).take(t as int) =~= ts.take(t as int));
            assert(ls.take(t + 1).drop_last() =~= ls.take(t as int));
            assert(ts.take(t + 1)[t as int] == ind@);
            assert(ls.take(t + 1)[t as int] == locals@[t as int]@);
        }
        t += 1;
    }
    assert(ts.take(locals@.len() as int) =~= ts);
    assert(ls.take(locals@.len() as int) =~= ls);
}

/// Adds every local term into `acc`: its value to the global value, its
/// gradient into the global gradient at its indices, and its Hessian
/// triplets after those already there.
pub fn accumulate<T: Real, const N: usize>(
    acc: &mut ComputedObjective<T>,
    inds: &[[usize; N]],
    locals: &Vec<Ad<T, N>>,
)
    requires
        inds@.len() == locals@.len(),
        indices_below(inds@, old(acc).grad@.len()),
    ensures
        final(acc).value == total_value(old(acc).value, vec_model(locals@)),
        final(acc).grad@ == total_grad(old(acc).grad@, tuples(inds@), vec_model(locals@)),
        final(acc).hess_trips@ == total_trips(
            old(acc).hess_trips@,
            tuples(inds@),
            vec_model(locals@),
        ),
{
    acc.value = add_values(acc.value, locals);
    add_grads(&mut acc.grad, inds, locals);
    add_trips(&mut acc.hess_trips, inds, locals);
}

/// The entries of `x` at the indices `ind`.
fn gather<T: Real, const N: usize>(x: &Vec<T>, ind: [usize; N]) -> (r: Vec<T>)
    requires
        forall|i: int| 0 <= i < N ==> #[trigger] ind@[i] < x@.len(),
    ensures
        r@.len() == N,
        forall|i: int| 0 <= i < N ==> #[trigger] r@[i] == x@[ind@[i] as int],
{
    let mut r: Vec<T> = Vec::new();
    let mut i: usize = 0;
    while i < N
        invariant
            i <= N,
            forall|k: int| 0 <= k < N ==> #[trigger] ind@[k] < x@.len(),
            r@.len() == i,
            forall|k: int| 0 <= k < i ==> #[trigger] r@[k] == x@[ind@[k] as int],
        decreases N - i,
    {
        r.push(x[ind[i]]);
        i += 1;
    }
    r
}

/// A function of `N` variables that gives its value with its gradient and Hessian.
pub trait ObjectiveFunction<T: Real, const N: usize> {
    /// The value, gradient and Hessian at the `N` variables.
    fn eval(&self, variables: &Vec<Ad<T, N>>) -> Ad<T, N>
        requires
            variables@.len() == N,
    ;
}

/// The `n` local variables at the entries `ind` of `x`: entry `k` is
/// variable number `k`, at the value `x[ind[k]]`.
pub open spec fn seeded<T: Real>(x: Seq<T>, ind: Seq<usize>, n: nat) -> Seq<AdModel<T>> {
    Seq::new(n, |k: int| variable_model(x[ind[k] as int], k, n))
}

/// The models of a sequence of AD values.
pub type Models<T> = Seq<AdModel<T>>;

/// The seeded local variables of each tuple of `inds` in turn.
pub open spec fn seeded_all<T: Real, const N: usize>(x: Seq<T>, inds: Seq<[usize; N]>) -> Seq<
    Seq<AdModel<T>>,
> {
    Seq::new(inds.len(), |t: int| seeded(x, inds[t]@, N as nat))
}

/// A local energy over `N` variables, evaluated many times over different
/// subsets of a large global vector of variables.
pub trait Objective<T: Real, const N: usize> {
    /// Further arguments that every evaluation receives.
    type EvalArgs;

    /// What [`Objective::eval`] gives on variables with the models
    /// `variables`. Read by Verus alone: an implementation outside Verus
    /// never runs it.
    spec fn eval_spec(&self, variables: Models<T>, args: &Self::EvalArgs) -> AdModel<T>;

    /// The energy, with its gradient and Hessian, at the `N` local variables.
    fn eval(&self, variables: &Vec<Ad<T, N>>, args: &Self::EvalArgs) -> (r: Ad<T, N>)
        requires
            variables@.len() == N,
        ensures
            r@ == self.eval_spec(vec_model(variables@), args),
    ;

    /// The energy at the entries `global_inds` of `x`, seeded as the local
    /// variables `0` to `N - 1` in that order.
    fn evaluate_for_indices(&self, global_inds: [usize; N], x: &Vec<T>, args: &Self::EvalArgs) -> (r:
        Ad<T, N>)
        requires
            forall|i: int| 0 <= i < N ==> #[trigger] global_inds@[i] < x@.len(),
        ensures
            r@ == self.eval_spec(seeded(x@, global_inds@, N as nat), args),
            r@.wf(N as nat),
    {
        let vals = gather(x, global_inds);
        let vars = Ad::<T, N>::active_from_slice(vals.as_slice());
        assert(vec_model(vars@) =~= seeded(x@, global_inds@, N as nat));
        let r = self.eval(&vars, args);
        proof {
            use_type_invariant(&r);
        }
        r
    }

    /// The local energies for each tuple of `operand_indices`, in order.
    fn evaluate_all(&self, x: &Vec<T>, operand_indices: &[[usize; N]], args: &Self::EvalArgs) -> (r:
        Vec<Ad<T, N>>)
        requires
            indices_below(operand_indices@, x@.len()),
        ensures
            r@.len() == operand_indices@.len(),
            vec_model(r@) == seeded_all(x@, operand_indices@).map_values(|v: Seq<AdModel<T>>| self.eval_spec(v, args)),
            forall|t: int| 0 <= t < r@.len() ==> (#[trigger] r@[t])@.wf(N as nat),
    {
        let ghost want = seeded_all(x@, operand_indices@).map_values(|v: Seq<AdModel<T>>| self.eval_spec(v, args));
        let mut r: Vec<Ad<T, N>> = Vec::new();
        let mut t: usize = 0;
        while t < operand_indices.len()
            invariant
                t <= operand_indices@.len(),
                indices_below(operand_indices@, x@.len()),
                want == seeded_all(x@, operand_indices@).map_values(|v: Seq<AdModel<T>>| self.eval_spec(v, args)),
                r@.len() == t,
                forall|k: int| 0 <= k < t ==> (#[trigger] r@[k])@ == want[k],
                forall|k: int| 0 <= k < t ==> (#[trigger] r@[k])@.wf(N as nat),
            decreases operand_indices@.len() - t,
        {
            let ind = operand_indices[t];
            assert forall|i: int| 0 <= i < N implies #[trigger] ind@[i] < x@.len() by {
                assert(operand_indices@[t as int]@[i] < x@.len());
            }
            r.push(self.evaluate_for_indices(ind, x, args));
            t += 1;
        }
        assert(vec_model(r@) =~= want);
        r
    }

    /// Global value, gradient and Hessian triplets over all tuples: the sum
    /// of the local values, the local gradients scattered additively into
    /// the global one, and the local Hessians' triplets tuple by tuple.
    fn compute(&self, x: &Vec<T>, operand_indices: &[[usize; N]], args: &Self::EvalArgs) -> (r:
        ComputedObjective<T>)
        requires
            indices_below(operand_indices@, x@.len()),
        ensures
            ({
                let ls = seeded_all(x@, operand_indices@).map_values(|v: Seq<AdModel<T>>| self.eval_spec(v, args));
                &&& r.value == total_value(T::zero_spec(), ls)
                &&& r.grad@ == total_grad(zeros(x@.len()), tuples(operand_indices@), ls)
                &&& r.hess_trips@ == total_trips(Seq::empty(), tuples(operand_indices@), ls)
            }),
    {
        let locals = self.evaluate_all(x, operand_indices, args);
        let mut acc = ComputedObjective { value: T::zero(), grad: filled_zeros(x.len()), hess_trips: Vec::new() };
        accumulate(&mut acc, operand_indices, &locals);
        acc
    }

    /// The global value alone: the sum of the local values.
    fn value(&self, x: &Vec<T>, operand_indices: &[[usize; N]], args: &Self::EvalArgs) -> (r: T)
        requires
            indices_below(operand_indices@, x@.len()),
        ensures
            r == total_value(T::zero_spec(), seeded_all(x@, operand_indices@).map_values(|v: Seq<AdModel<T>>| self.eval_spec(v, args))),
    {
        let locals = self.evaluate_all(x, operand_indices, args);
        add_values(T::zero(), &locals)
    }

    /// The global gradient alone.
    fn grad(&self, x: &Vec<T>, operand_indices: &[[usize; N]], args: &Self::EvalArgs) -> (r: Vec<T>)
        requires
            indices_below(operand_indices@, x@.len()),
        ensures
            r@ == total_grad(
                zeros(x@.len()),
                tuples(operand_indices@),
                seeded_all(x@, operand_indices@).map_values(|v: Seq<AdModel<T>>| self.eval_spec(v, args)),
            ),
    {
        let locals = self.evaluate_all(x, operand_indices, args);
        let mut g = filled_zeros(x.len());
        add_grads(&mut g, operand_indices, &locals);
        g
    }

    /// The global Hessian triplets alone.
    fn hess_trips(&self, x: &Vec<T>, operand_indices: &[[usize; N]], args: &Self::EvalArgs) -> (r:
        Vec<(usize, usize, T)>)
        requires
            indices_below(operand_indices@, x@.len()),
        ensures
            r@ == total_trips(
                Seq::empty(),
                tuples(operand_indices@),
                seeded_all(x@, operand_indices@).map_values(|v: Seq<AdModel<T>>| self.eval_spec(v, args)),
            ),
    {
        let locals = self.evaluate_all(x, operand_indices, args);
        let mut trips: Vec<(usize, usize, T)> = Vec::new();
        add_trips(&mut trips, operand_indices, &locals);
        trips
    }
}

/// `n` zeros.
fn filled_zeros<T: Real>(n: usize) -> (r: Vec<T>)
    ensures
        r@ == zeros::<T>(n as nat),
{
    let z = T::zero();
    let mut r: Vec<T> = Vec::new();
    let mut i: usize = 0;
    while i < n
        invariant
            i <= n,
            z == T::zero_spec(),
            r@ == zeros::<T>(i as nat),
        decreases n - i,
    {
        r.push(z);
        i += 1;
        assert(r@ =~= zeros::<T>(i as nat));
    }
    r
}

} // verus!
