use raddy::matrix::l2_norm;
use raddy::sparse::{accumulate, ComputedObjective, Models, Objective};
use raddy::AdModel;
use raddy::{Ad, Real};

const EPS: f64 = 1e-12;

#[derive(Clone, Copy, Debug, PartialEq)]
struct F(f64);

impl Real for F {
    // each model is the operation itself
    fn zero_spec() -> F { Self::zero() }
    fn one_spec() -> F { Self::one() }
    fn from_i32_spec(n: i32) -> F { Self::from_i32(n) }
    fn lt_spec(self, o: F) -> bool { self.lt(&o) }
    fn le_spec(self, o: F) -> bool { self.le(&o) }
    fn is_zero_spec(self) -> bool { self.is_zero() }
    fn powi_spec(self, n: i32) -> F { Real::powi(&self, n) }
    fn add_spec(self, o: F) -> F { Real::add(&self, &o) }
    fn sub_spec(self, o: F) -> F { Real::sub(&self, &o) }
    fn mul_spec(self, o: F) -> F { Real::mul(&self, &o) }
    fn div_spec(self, o: F) -> F { Real::div(&self, &o) }
    fn powf_spec(self, o: F) -> F { Real::powf(&self, &o) }
    fn log_spec(self, o: F) -> F { Real::log(&self, &o) }
    fn atan2_spec(self, o: F) -> F { Real::atan2(&self, &o) }
    fn neg_spec(self) -> F { Real::neg(&self) }
    fn abs_spec(self) -> F { Real::abs(&self) }
    fn sqrt_spec(self) -> F { Real::sqrt(&self) }
    fn exp_spec(self) -> F { Real::exp(&self) }
    fn ln_spec(self) -> F { Real::ln(&self) }
    fn log2_spec(self) -> F { Real::log2(&self) }
    fn log10_spec(self) -> F { Real::log10(&self) }
    fn sin_spec(self) -> F { Real::sin(&self) }
    fn cos_spec(self) -> F { Real::cos(&self) }
    fn tan_spec(self) -> F { Real::tan(&self) }
    fn asin_spec(self) -> F { Real::asin(&self) }
    fn acos_spec(self) -> F { Real::acos(&self) }
    fn atan_spec(self) -> F { Real::atan(&self) }
    fn sinh_spec(self) -> F { Real::sinh(&self) }
    fn cosh_spec(self) -> F { Real::cosh(&self) }
    fn tanh_spec(self) -> F { Real::tanh(&self) }
    fn asinh_spec(self) -> F { Real::asinh(&self) }
    fn acosh_spec(self) -> F { Real::acosh(&self) }
    fn atanh_spec(self) -> F { Real::atanh(&self) }

    fn zero() -> F { F(0.0) }
    fn one() -> F { F(1.0) }
    fn from_i32(n: i32) -> F { F(n as f64) }
    fn lt(&self, o: &F) -> bool { self.0 < o.0 }
    fn le(&self, o: &F) -> bool { self.0 <= o.0 }
    fn is_zero(&self) -> bool { self.0.abs() == 0.0 }
    fn powi(&self, n: i32) -> F { F(self.0.powi(n)) }
    fn add(&self, o: &F) -> F { F(self.0 + o.0) }
    fn sub(&self, o: &F) -> F { F(self.0 - o.0) }
    fn mul(&self, o: &F) -> F { F(self.0 * o.0) }
    fn div(&self, o: &F) -> F { F(self.0 / o.0) }
    fn powf(&self, o: &F) -> F { F(self.0.powf(o.0)) }
    fn log(&self, o: &F) -> F { F(self.0.log(o.0)) }
    fn atan2(&self, o: &F) -> F { F(self.0.atan2(o.0)) }
    fn neg(&self) -> F { F(-self.0) }
    fn abs(&self) -> F { F(self.0.abs()) }
    fn sqrt(&self) -> F { F(self.0.sqrt()) }
    fn exp(&self) -> F { F(self.0.exp()) }
    fn ln(&self) -> F { F(self.0.ln()) }
    fn log2(&self) -> F { F(self.0.log2()) }
    fn log10(&self) -> F { F(self.0.log10()) }
    fn sin(&self) -> F { F(self.0.sin()) }
    fn cos(&self) -> F { F(self.0.cos()) }
    fn tan(&self) -> F { F(self.0.tan()) }
    fn asin(&self) -> F { F(self.0.asin()) }
    fn acos(&self) -> F { F(self.0.acos()) }
    fn atan(&self) -> F { F(self.0.atan()) }
    fn sinh(&self) -> F { F(self.0.sinh()) }
    fn cosh(&self) -> F { F(self.0.cosh()) }
    fn tanh(&self) -> F { F(self.0.tanh()) }
    fn asinh(&self) -> F { F(self.0.asinh()) }
    fn acosh(&self) -> F { F(self.0.acosh()) }
    fn atanh(&self) -> F { F(self.0.atanh()) }
}

fn close(a: f64, b: f64, eps: f64) {
    assert!((a - b).abs() <= eps, "left = {a}, right = {b}, eps = {eps}");
}

struct SpringEnergy {
    k: f64,
    restlen: f64,
}

// 2d * 2nodes = 4dof
impl Objective<F, 4> for SpringEnergy {
    type EvalArgs = ();
    // the model of eval, which only the verifier reads
    fn eval_spec(&self, _variables: Models<F>, _args: &()) -> AdModel<F> {
        unreachable!("a model, never run")
    }
    fn eval(&self, variables: &Vec<Ad<F, 4>>, _: &()) -> Ad<F, 4> {
        let d = vec![variables[2].sub(&variables[0]), variables[3].sub(&variables[1])];
        let len = l2_norm(&d).unwrap();
        // Hooke's law
        Ad::inactive_scalar(F(0.5 * self.k))
            .mul(&len.sub(&Ad::inactive_scalar(F(self.restlen))).powi(2).unwrap())
    }
}

/// Energy, gradient and dense Hessian of springs between the 2-D points of `x`.
fn springs_reference(
    springs: &[[usize; 4]],
    x: &[f64],
    k: f64,
    r: f64,
) -> (f64, Vec<f64>, Vec<Vec<f64>>) {
    let n = x.len();
    let mut e = 0.0;
    let mut g = vec![0.0; n];
    let mut h = vec![vec![0.0; n]; n];
    for s in springs {
        let d = [x[s[2]] - x[s[0]], x[s[3]] - x[s[1]]];
        let l = (d[0] * d[0] + d[1] * d[1]).sqrt();
        e += 0.5 * k * (l - r) * (l - r);
        for c in 0..2 {
            let f = k * (l - r) * d[c] / l;
            g[s[2 + c]] += f;
            g[s[c]] -= f;
        }
        for a in 0..2 {
            for b in 0..2 {
                let id = if a == b { 1.0 } else { 0.0 };
                let kk = k * ((1.0 - r / l) * id + r / l * d[a] * d[b] / (l * l));
                h[s[a]][s[b]] += kk;
                h[s[2 + a]][s[2 + b]] += kk;
                h[s[a]][s[2 + b]] -= kk;
                h[s[2 + a]][s[b]] -= kk;
            }
        }
    }
    (e, g, h)
}

fn dense(n: usize, trips: &[(usize, usize, F)]) -> Vec<Vec<f64>> {
    let mut h = vec![vec![0.0; n]; n];
    for (r, c, v) in trips {
        h[*r][*c] += v.0;
    }
    h
}

fn fx(x: &[f64]) -> Vec<F> {
    x.iter().map(|v| F(*v)).collect()
}

fn check_springs(springs: &[[usize; 4]], x0: &[f64]) {
    let (k, restlen) = (1.0, 1.0);
    let obj = SpringEnergy { k, restlen };
    let computed = obj.compute(&fx(x0), springs, &());
    let (ee, eg, eh) = springs_reference(springs, x0, k, restlen);
    close(computed.value.0, ee, EPS);
    let gd: f64 = (0..x0.len()).map(|i| (eg[i] - computed.grad[i].0).powi(2)).sum();
    close(gd, 0.0, EPS);
    let h = dense(x0.len(), &computed.hess_trips);
    let mut hd = 0.0;
    for i in 0..x0.len() {
        for j in 0..x0.len() {
            hd += (eh[i][j] - h[i][j]).powi(2);
        }
    }
    close(hd, 0.0, EPS);
}

#[test]
fn test_mass_spring_3() {
    let springs = vec![[0, 1, 2, 3], [2, 3, 4, 5], [0, 1, 4, 5]];
    check_springs(&springs, &[0.0, 0.0, 1.6, 0.0, 0.8, 0.6]);
}

#[test]
fn test_mass_spring_4() {
    let springs = vec![[0, 1, 2, 3], [2, 3, 4, 5], [4, 5, 6, 7], [6, 7, 0, 1]];
    check_springs(&springs, &[0.0, 0.0, 4.0, 1.0, 3.0, 2.0, 1.0, 5.0]);
}

#[test]
fn separate_entry_points_agree_with_compute() {
    let springs = vec![[0, 1, 2, 3], [2, 3, 4, 5], [0, 1, 4, 5]];
    let x = fx(&[0.0, 0.0, 1.6, 0.0, 0.8, 0.6]);
    let obj = SpringEnergy { k: 2.0, restlen: 1.0 };
    let c = obj.compute(&x, &springs, &());
    assert_eq!(obj.value(&x, &springs, &()), c.value);
    assert_eq!(obj.grad(&x, &springs, &()), c.grad);
    assert_eq!(obj.hess_trips(&x, &springs, &()), c.hess_trips);
    assert_eq!(c.hess_trips.len(), 3 * 16);
    // triplets of the first tuple: rows and columns are its global indices
    assert_eq!((c.hess_trips[0].0, c.hess_trips[0].1), (0, 0));
    assert_eq!((c.hess_trips[5].0, c.hess_trips[5].1), (1, 1));
    assert_eq!((c.hess_trips[16].0, c.hess_trips[16].1), (2, 2));
    let local = obj.evaluate_for_indices([2, 3, 4, 5], &x, &());
    assert_eq!(c.hess_trips[16 + 4 + 3].2, local.hess()[1][3]);
}

#[test]
fn assembly_is_additive() {
    let a = vec![[0, 1, 2, 3], [2, 3, 4, 5]];
    let b = vec![[0, 1, 4, 5]];
    let all: Vec<[usize; 4]> = a.iter().chain(b.iter()).cloned().collect();
    let x = fx(&[0.1, -0.2, 1.6, 0.3, 0.8, 0.6]);
    let obj = SpringEnergy { k: 3.0, restlen: 1.0 };
    let ca = obj.compute(&x, &a, &());
    let cb = obj.compute(&x, &b, &());
    let cu = obj.compute(&x, &all, &());
    close(cu.value.0, ca.value.0 + cb.value.0, 1e-12);
    for i in 0..6 {
        close(cu.grad[i].0, ca.grad[i].0 + cb.grad[i].0, 1e-12);
    }
    let joined: Vec<(usize, usize, F)> =
        ca.hess_trips.iter().chain(cb.hess_trips.iter()).cloned().collect();
    assert_eq!(cu.hess_trips, joined);

    // accumulating the second list on top of the first is the single pass
    let la = obj.evaluate_all(&x, &a, &());
    let lb = obj.evaluate_all(&x, &b, &());
    let lu = obj.evaluate_all(&x, &all, &());
    let fresh = || ComputedObjective { value: F(0.0), grad: vec![F(0.0); 6], hess_trips: Vec::new() };
    let mut two = fresh();
    accumulate(&mut two, &a, &la);
    accumulate(&mut two, &b, &lb);
    let mut one = fresh();
    accumulate(&mut one, &all, &lu);
    assert_eq!(two.value, one.value);
    assert_eq!(two.grad, one.grad);
    assert_eq!(two.hess_trips, one.hess_trips);
}

#[test]
fn gradient_scatter_adds_shared_indices() {
    // two terms sharing the point (2, 3): its gradient entries receive both
    let springs = vec![[0, 1, 2, 3], [2, 3, 4, 5]];
    let x = fx(&[0.0, 0.0, 2.0, 0.0, 4.0, 0.0]);
    let obj = SpringEnergy { k: 1.0, restlen: 1.0 };
    let g = obj.grad(&x, &springs, &());
    // each spring is stretched by one along x: force k (l - r) = 1
    close(g[0].0, -1.0, 1e-15);
    close(g[2].0, 0.0, 1e-15);
    close(g[4].0, 1.0, 1e-15);
    assert_eq!(obj.value(&x, &springs, &()), F(1.0));
}

fn solve(mut a: Vec<Vec<f64>>, mut b: Vec<f64>) -> Vec<f64> {
    let n = b.len();
    for c in 0..n {
        let p = (c..n).max_by(|i, j| a[*i][c].abs().partial_cmp(&a[*j][c].abs()).unwrap()).unwrap();
        a.swap(c, p);
        b.swap(c, p);
        for r in c + 1..n {
            let f = a[r][c] / a[c][c];
            for k in c..n {
                a[r][k] -= f * a[c][k];
            }
            b[r] -= f * b[c];
        }
    }
    let mut x = vec![0.0; n];
    for r in (0..n).rev() {
        let s: f64 = (r + 1..n).map(|k| a[r][k] * x[k]).sum();
        x[r] = (b[r] - s) / a[r][r];
    }
    x
}

#[test]
fn newton_drives_triangle_to_rest_lengths() {
    let springs = vec![[0, 1, 2, 3], [2, 3, 4, 5], [0, 1, 4, 5]];
    let obj = SpringEnergy { k: 10000.0, restlen: 1.0 };
    let mut x = vec![0.0, 0.0, 0.001, 0.0, 0.001, 0.01];
    let dist = |x: &Vec<f64>, a: usize, b: usize| {
        ((x[2 * b] - x[2 * a]).powi(2) + (x[2 * b + 1] - x[2 * a + 1]).powi(2)).sqrt()
    };
    let residual = |x: &Vec<f64>| {
        (dist(x, 0, 1) - 1.0).abs() + (dist(x, 1, 2) - 1.0).abs() + (dist(x, 0, 2) - 1.0).abs()
    };
    let start = residual(&x);
    for _ in 0..200 {
        let fxv = fx(&x);
        let grad = obj.grad(&fxv, &springs, &());
        let mut trips = obj.hess_trips(&fxv, &springs, &());
        for i in 0..6 {
            trips.push((i, i, F(1.0)));
        }
        let h = dense(6, &trips);
        let dir = solve(h, grad.iter().map(|g| -g.0).collect());
        let step: f64 = dir.iter().map(|d| d * d).sum::<f64>().sqrt();
        for i in 0..6 {
            x[i] += dir[i];
        }
        if step <= 1e-8 {
            break;
        }
    }
    assert!(residual(&x) < start);
    close(dist(&x, 0, 1), 1.0, 1e-4);
    close(dist(&x, 1, 2), 1.0, 1e-4);
    close(dist(&x, 0, 2), 1.0, 1e-4);
}
