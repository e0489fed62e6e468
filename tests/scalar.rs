use raddy::matrix::{
    determinant, l1_norm, l2_norm, l2_norm_squared, linf_norm, lk_norm, scale, GetValue,
};
use raddy::{Ad, AdError, Real, Val};

const EPS: f64 = 1e-12;
const BIG_EPS: f64 = 1e-8;
const RELRATIO: f64 = 6e-4;

#[derive(Clone, Copy, Debug, PartialEq)]
struct F(f64);

impl Real for F {
    // each model is the operation itself
    fn zero_spec() -> F { Self::zero() }
    fn one_spec() -> F { Self::one() }
    fn from_i32_spec(n: i32) -> F { Self::from_i32(n) }
    fn lt_spec(self, o: F) -> bool { self.lt(&o) }
    fn le_spec(self, o: F) -> bool { self.le(&o) }
    fn is_zero_spec(self) -> bool { self.is_zero() }
    fn powi_spec(self, n: i32) -> F { Real::powi(&self, n) }
    fn add_spec(self, o: F) -> F { Real::add(&self, &o) }
    fn sub_spec(self, o: F) -> F { Real::sub(&self, &o) }
    fn mul_spec(self, o: F) -> F { Real::mul(&self, &o) }
    fn div_spec(self, o: F) -> F { Real::div(&self, &o) }
    fn powf_spec(self, o: F) -> F { Real::powf(&self, &o) }
    fn log_spec(self, o: F) -> F { Real::log(&self, &o) }
    fn atan2_spec(self, o: F) -> F { Real::atan2(&self, &o) }
    fn neg_spec(self) -> F { Real::neg(&self) }
    fn abs_spec(self) -> F { Real::abs(&self) }
    fn sqrt_spec(self) -> F { Real::sqrt(&self) }
    fn exp_spec(self) -> F { Real::exp(&self) }
    fn ln_spec(self) -> F { Real::ln(&self) }
    fn log2_spec(self) -> F { Real::log2(&self) }
    fn log10_spec(self) -> F { Real::log10(&self) }
    fn sin_spec(self) -> F { Real::sin(&self) }
    fn cos_spec(self) -> F { Real::cos(&self) }
    fn tan_spec(self) -> F { Real::tan(&self) }
    fn asin_spec(self) -> F { Real::asin(&self) }
    fn acos_spec(self) -> F { Real::acos(&self) }
    fn atan_spec(self) -> F { Real::atan(&self) }
    fn sinh_spec(self) -> F { Real::sinh(&self) }
    fn cosh_spec(self) -> F { Real::cosh(&self) }
    fn tanh_spec(self) -> F { Real::tanh(&self) }
    fn asinh_spec(self) -> F { Real::asinh(&self) }
    fn acosh_spec(self) -> F { Real::acosh(&self) }
    fn atanh_spec(self) -> F { Real::atanh(&self) }

    fn zero() -> F { F(0.0) }
    fn one() -> F { F(1.0) }
    fn from_i32(n: i32) -> F { F(n as f64) }
    fn lt(&self, o: &F) -> bool { self.0 < o.0 }
    fn le(&self, o: &F) -> bool { self.0 <= o.0 }
    fn is_zero(&self) -> bool { self.0.abs() == 0.0 }
    fn powi(&self, n: i32) -> F { F(self.0.powi(n)) }
    fn add(&self, o: &F) -> F { F(self.0 + o.0) }
    fn sub(&self, o: &F) -> F { F(self.0 - o.0) }
    fn mul(&self, o: &F) -> F { F(self.0 * o.0) }
    fn div(&self, o: &F) -> F { F(self.0 / o.0) }
    fn powf(&self, o: &F) -> F { F(self.0.powf(o.0)) }
    fn log(&self, o: &F) -> F { F(self.0.log(o.0)) }
    fn atan2(&self, o: &F) -> F { F(self.0.atan2(o.0)) }
    fn neg(&self) -> F { F(-self.0) }
    fn abs(&self) -> F { F(self.0.abs()) }
    fn sqrt(&self) -> F { F(self.0.sqrt()) }
    fn exp(&self) -> F { F(self.0.exp()) }
    fn ln(&self) -> F { F(self.0.ln()) }
    fn log2(&self) -> F { F(self.0.log2()) }
    fn log10(&self) -> F { F(self.0.log10()) }
    fn sin(&self) -> F { F(self.0.sin()) }
    fn cos(&self) -> F { F(self.0.cos()) }
    fn tan(&self) -> F { F(self.0.tan()) }
    fn asin(&self) -> F { F(self.0.asin()) }
    fn acos(&self) -> F { F(self.0.acos()) }
    fn atan(&self) -> F { F(self.0.atan()) }
    fn sinh(&self) -> F { F(self.0.sinh()) }
    fn cosh(&self) -> F { F(self.0.cosh()) }
    fn tanh(&self) -> F { F(self.0.tanh()) }
    fn asinh(&self) -> F { F(self.0.asinh()) }
    fn acosh(&self) -> F { F(self.0.acosh()) }
    fn atanh(&self) -> F { F(self.0.atanh()) }
}

fn close(a: f64, b: f64, eps: f64) {
    assert!((a - b).abs() <= eps, "left = {a}, right = {b}, eps = {eps}");
}

fn float_close(left: f64, right: f64) {
    let diff = (left - right).abs();
    assert!(diff / left.abs() < RELRATIO, "left = {left}, right = {right}");
    assert!(diff / right.abs() < RELRATIO, "left = {left}, right = {right}");
}

fn s1(x: f64) -> Ad<F, 1> {
    Ad::active_scalar(F(x))
}

fn c1(x: f64) -> Ad<F, 1> {
    Ad::inactive_scalar(F(x))
}

fn g0(a: &Ad<F, 1>) -> f64 {
    a.grad()[0].0
}

fn h0(a: &Ad<F, 1>) -> f64 {
    a.hess()[0][0].0
}

fn grid(lo: f64, hi: f64, k: usize, n: usize) -> f64 {
    lo + (hi - lo) * (k as f64 + 0.5) / n as f64
}

/// Central differences of a function of one variable: first and second derivative.
fn fd(f: &dyn Fn(f64) -> f64, x: f64) -> (f64, f64) {
    let h = 1e-6;
    let g = (f(x + h) - f(x - h)) / (2.0 * h);
    let h2 = 1e-4;
    let hh = (f(x + h2) - 2.0 * f(x) + f(x - h2)) / (h2 * h2);
    (g, hh)
}

fn plain_det(m: &Vec<Vec<f64>>) -> f64 {
    let n = m.len();
    if n == 0 {
        return 1.0;
    }
    if n == 1 {
        return m[0][0];
    }
    let mut acc = 0.0;
    for j in 0..n {
        let minor: Vec<Vec<f64>> = m[1..]
            .iter()
            .map(|row| row.iter().enumerate().filter(|(c, _)| *c != j).map(|(_, x)| *x).collect())
            .collect();
        let t = m[0][j] * plain_det(&minor);
        if j % 2 == 1 {
            acc -= t;
        } else {
            acc += t;
        }
    }
    acc
}

/// The determinant is affine in each entry: its derivative by entry (a, b)
/// is the determinant with row a replaced by the unit row e_b.
fn det_grad(m: &Vec<Vec<f64>>, a: usize, b: usize) -> f64 {
    let n = m.len();
    let mut w = m.clone();
    w[a] = (0..n).map(|c| if c == b { 1.0 } else { 0.0 }).collect();
    plain_det(&w)
}

fn det_hess(m: &Vec<Vec<f64>>, a: usize, b: usize, c: usize, d: usize) -> f64 {
    if a == c || b == d {
        return 0.0;
    }
    let n = m.len();
    let mut w = m.clone();
    w[a] = (0..n).map(|k| if k == b { 1.0 } else { 0.0 }).collect();
    w[c] = (0..n).map(|k| if k == d { 1.0 } else { 0.0 }).collect();
    plain_det(&w)
}

fn sample(n: usize, lo: f64, hi: f64, seed: u64) -> Vec<f64> {
    let mut state = seed.wrapping_mul(6364136223846793005).wrapping_add(1442695040888963407);
    (0..n)
        .map(|_| {
            state = state.wrapping_mul(6364136223846793005).wrapping_add(1442695040888963407);
            let u = (state >> 11) as f64 / (1u64 << 53) as f64;
            lo + (hi - lo) * u
        })
        .collect()
}

fn ad_matrix<const N: usize>(vals: &[f64], dim: usize) -> Vec<Vec<Ad<F, N>>> {
    let vars = Ad::<F, N>::active_from_slice(&vals.iter().map(|x| F(*x)).collect::<Vec<_>>());
    (0..dim).map(|r| (0..dim).map(|c| vars[r * dim + c].copy()).collect()).collect()
}

fn plain_matrix(vals: &[f64], dim: usize) -> Vec<Vec<f64>> {
    (0..dim).map(|r| (0..dim).map(|c| vals[r * dim + c]).collect()).collect()
}

#[test]
fn test_scalar1() {
    let sv = 2.4;
    let s = s1(sv);
    let g = g0(&s.powi(3).unwrap());
    close(g, 3.0 * sv * sv, EPS);

    let sv = -3.42;
    let s = s1(sv);
    let e = s.sin().mul(&s);
    close(g0(&e), sv * sv.cos() + sv.sin(), EPS);
    close(h0(&e), 2.0 * sv.cos() - sv * sv.sin(), EPS);

    let sv: f64 = 1.4623;
    let s = s1(sv);
    let expr = s
        .cosh()
        .mul(&s.sinh().mul(&c1(1.245).div(&s.powi(-2).unwrap()).unwrap()))
        .add(&s.tanh());
    let (c, sh, t) = (sv.cosh(), sv.sinh(), sv.tanh());
    let (u, u1, u2) = (1.245 * sv * sv, 2.49 * sv, 2.49);
    let (w, w1, w2) = (c * sh, c * c + sh * sh, 4.0 * c * sh);
    let sech2 = 1.0 / (c * c);
    close(g0(&expr), u1 * w + u * w1 + sech2, EPS);
    close(h0(&expr), u2 * w + 2.0 * u1 * w1 + u * w2 - 2.0 * sech2 * t, EPS);

    let sv: f64 = 31.8;
    let s = s1(sv);
    let expr = s
        .tan()
        .mul(&s.asinh())
        .mul(&s)
        .sub(&s.powf(F(1.3)).unwrap().mul(&s.cos()))
        .add(&s.sqrt().unwrap());
    let (a, a1) = (sv.tan(), 1.0 + sv.tan() * sv.tan());
    let (b, b1) = (sv.asinh(), 1.0 / (1.0 + sv * sv).sqrt());
    let p1 = a1 * b * sv + a * b1 * sv + a * b;
    let q1 = 1.3 * sv.powf(0.3) * sv.cos() - sv.powf(1.3) * sv.sin();
    let r1 = 0.5 / sv.sqrt();
    close(g0(&expr), p1 - q1 + r1, EPS);
    // the second derivative at this input, worked out to twenty digits
    close(h0(&expr), 222.12971701379249476, EPS);
}

#[test]
fn test_scalar2() {
    for k in 0..100 {
        let sv = grid(0.0, 21.4124, k, 100);
        close(g0(&s1(sv).sqrt().unwrap()), 0.5 / sv.sqrt(), EPS);

        let sv = grid(0.0, 50.235, k, 100);
        let s = s1(sv);
        let res = s.ln().unwrap().mul(&s).add(&s.ln().unwrap());
        close(g0(&res), sv.ln() + 1.0 + sv.recip(), EPS);

        let sv = grid(0.0, 50.235, k, 100);
        let s = s1(sv);
        let res = s.log10().unwrap().mul(&s).add(&s.log2().unwrap());
        close(
            g0(&res),
            (sv.ln() + 1.0) / 10_f64.ln() + sv.recip() * 2_f64.ln().recip(),
            EPS,
        );

        let sv = grid(-12.2, 3.12, k, 100);
        let s = s1(sv);
        let res = s.exp().mul(&s).add(&s.neg().exp());
        close(g0(&res), (sv + 1.0) * sv.exp() - (-sv).exp(), EPS);

        // cos(s) tan(s) = sin(s)
        let sv = grid(-12.2, 3.12, k, 100);
        let s = s1(sv);
        let res = s.cos().mul(&s.tan());
        close(g0(&res), sv.cos(), EPS);
        close(h0(&res), -sv.sin(), BIG_EPS);

        let sv = grid(-1.0, 1.0, k, 100);
        let s = s1(sv);
        let res = s.asin().unwrap().mul(&s.tan()).add(&s.mul(&s.acos().unwrap()));
        let q = (1.0 - sv * sv).sqrt();
        let (as0, as1, as2) = (sv.asin(), 1.0 / q, sv / (q * q * q));
        let (ac0, ac1, ac2) = (sv.acos(), -1.0 / q, -sv / (q * q * q));
        let (t0, t1) = (sv.tan(), 1.0 + sv.tan() * sv.tan());
        let t2 = 2.0 * t0 * t1;
        close(g0(&res), as1 * t0 + as0 * t1 + ac0 + sv * ac1, EPS);
        close(
            h0(&res),
            as2 * t0 + 2.0 * as1 * t1 + as0 * t2 + 2.0 * ac1 + sv * ac2,
            BIG_EPS,
        );

        let sv = grid(-2.14514, 4.919810, k, 100);
        let s = s1(sv);
        let res = s
            .atan2(&s.recip().unwrap())
            .unwrap()
            .mul(&s.sinh())
            .add(&s.mul(&s.cosh().powi(-3).unwrap()));
        let th = sv.atan2(1.0 / sv);
        let s4 = sv.powi(4);
        let th1 = 2.0 * sv / (1.0 + s4);
        let th2 = (2.0 - 6.0 * s4) / ((1.0 + s4) * (1.0 + s4));
        let (sh, ch) = (sv.sinh(), sv.cosh());
        let e1 = -3.0 * ch.powi(-4) * sh;
        let e2 = 12.0 * ch.powi(-5) * sh * sh - 3.0 * ch.powi(-3);
        close(g0(&res), th1 * sh + th * ch + ch.powi(-3) + sv * e1, EPS);
        close(
            h0(&res),
            th2 * sh + 2.0 * th1 * ch + th * sh + 2.0 * e1 + sv * e2,
            BIG_EPS,
        );

        let sv = grid(1.0, 114.514, k, 100);
        let s = s1(sv);
        let res = s
            .atan2(&s.asinh())
            .unwrap()
            .mul(&s.acosh().unwrap())
            .add(&s.mul(&s.tanh().powi(-3).unwrap()))
            .sub(&s.recip().unwrap().atanh().unwrap());
        let b = sv.asinh();
        let b1 = 1.0 / (1.0 + sv * sv).sqrt();
        let b2 = -sv * (1.0 + sv * sv).powf(-1.5);
        let q = sv / b;
        let q1 = (b - sv * b1) / (b * b);
        let q2 = -sv * b2 / (b * b) - 2.0 * b1 * (b - sv * b1) / (b * b * b);
        let th = sv.atan2(b);
        let th1 = q1 / (1.0 + q * q);
        let th2 = q2 / (1.0 + q * q) - 2.0 * q * q1 * q1 / ((1.0 + q * q) * (1.0 + q * q));
        let ac = sv.acosh();
        let ac1 = 1.0 / (sv * sv - 1.0).sqrt();
        let ac2 = -sv * (sv * sv - 1.0).powf(-1.5);
        let t = sv.tanh();
        let t1 = 1.0 - t * t;
        let t2 = -2.0 * t * t1;
        let m1 = -3.0 * t.powi(-4) * t1;
        let m2 = 12.0 * t.powi(-5) * t1 * t1 - 3.0 * t.powi(-4) * t2;
        let z1 = -1.0 / (sv * sv - 1.0);
        let z2 = 2.0 * sv / ((sv * sv - 1.0) * (sv * sv - 1.0));
        close(
            g0(&res),
            th1 * ac + th * ac1 + t.powi(-3) + sv * m1 - z1,
            EPS,
        );
        close(
            h0(&res),
            th2 * ac + 2.0 * th1 * ac1 + th * ac2 + 2.0 * m1 + sv * m2 - z2,
            BIG_EPS,
        );
    }
}

#[test]
fn test_relative() {
    let f2 = |s: f64| {
        s.tan() * (s.asinh() * s.atanh()) * s - s.powf(1.3) * s.cos() + s.sqrt()
            - (s / 1.441 + 1.0 / s)
            - (-6.235 / s)
    };
    let sv = 0.2127;
    let s = s1(sv);
    let expr = s
        .tan()
        .mul(&s.asinh().mul(&s.atanh().unwrap()))
        .mul(&s)
        .sub(&s.powf(F(1.3)).unwrap().mul(&s.cos()))
        .add(&s.sqrt().unwrap())
        .sub(&s.div_value(F(1.441)).unwrap().add(&s.recip().unwrap()))
        .sub(&c1(-6.235).div(&s).unwrap());
    let (g, h) = fd(&f2, sv);
    float_close(g0(&expr), g);
    float_close(h0(&expr), h);

    let f3 = |s: f64| {
        (s.tan() * s.asinh().powi(2) * s - s.powf(1.3) * s.cos() + s.sqrt()
            - (s / 1.441 + 1.0 / s)
            - (-6.235 / s + s.powi(3).sinh())
            + s.powf(-1.24) / (s / 12.4).abs())
        .abs()
    };
    let sv = 0.8235;
    let s = s1(sv);
    let expr = s
        .tan()
        .mul(&s.asinh().square())
        .mul(&s)
        .sub(&s.powf(F(1.3)).unwrap().mul(&s.cos()))
        .add(&s.sqrt().unwrap())
        .sub(&s.div_value(F(1.441)).unwrap().add(&s.recip().unwrap()))
        .sub(&c1(-6.235).div(&s.copy()).unwrap().add(&s.powi(3).unwrap().sinh()))
        .add(&s.powf(F(-1.24)).unwrap().div(&s.div_value(F(12.4)).unwrap().abs()).unwrap())
        .abs();
    let (g, _) = fd(&f3, sv);
    float_close(g0(&expr), g);
}

#[test]
fn test_det() {
    let vals = sample(9, -3.0, 3.0, 7);
    let mat = ad_matrix::<9>(&vals, 3);
    let mat_val: Vec<Vec<f64>> = mat.value().iter().map(|r| r.iter().map(|x| x.0).collect()).collect();
    let det = determinant(&mat).unwrap();
    let m = &mat_val;
    let gt_det = m[0][0] * (m[1][1] * m[2][2] - m[2][1] * m[1][2])
        - m[0][1] * (m[1][0] * m[2][2] - m[2][0] * m[1][2])
        + m[0][2] * (m[1][0] * m[2][1] - m[2][0] * m[1][1]);
    assert_eq!(det.value().0, gt_det);
    let g = det.grad();
    let mut grad_diff = 0.0;
    for a in 0..3 {
        for b in 0..3 {
            let d = g[a * 3 + b].0 - det_grad(m, a, b);
            grad_diff += d * d;
        }
    }
    close(grad_diff, 0.0, EPS);
}

#[test]
fn test_norm_1() {
    const N_TEST_MAT_1: usize = 30;
    let vals = sample(N_TEST_MAT_1, -4.0, 4.0, 11);
    let s = Ad::<F, N_TEST_MAT_1>::active_from_slice(&vals.iter().map(|x| F(*x)).collect::<Vec<_>>());
    let z = l2_norm(&s).unwrap();
    let norm = vals.iter().map(|x| x * x).sum::<f64>().sqrt();
    let expected: Vec<f64> = vals.iter().map(|x| x / norm).collect();
    let g = z.grad();
    let g_diff: f64 = (0..N_TEST_MAT_1).map(|i| (expected[i] - g[i].0).powi(2)).sum();
    close(g_diff, 0.0, EPS);
    let h = z.hess();
    let mut h_diff = 0.0;
    for i in 0..N_TEST_MAT_1 {
        for j in 0..N_TEST_MAT_1 {
            let id = if i == j { 1.0 } else { 0.0 };
            let e = (id - expected[i] * expected[j]) / norm;
            h_diff += (h[i][j].0 - e).powi(2);
        }
    }
    close(h_diff, 0.0, EPS);
}

#[test]
fn test_norm_2() {
    let vals = sample(9, -4.0, 4.0, 13);
    let s = Ad::<F, 9>::active_from_slice(&vals.iter().map(|x| F(*x)).collect::<Vec<_>>());
    // trace(Zᵀ Z) is the sum of the squares of the entries of Z
    let tr = l2_norm_squared(&s);
    let expected_grad = scale(&s, F(2.0));
    let g = tr.grad();
    let g_diff: f64 = (0..9).map(|i| (expected_grad[i].value().0 - g[i].0).powi(2)).sum();
    close(g_diff, 0.0, EPS);
    let h = tr.hess();
    for i in 0..9 {
        for j in 0..9 {
            assert_eq!(h[i][j].0, if i == j { 2.0 } else { 0.0 });
        }
    }
}

#[test]
fn test_det3() {
    let vals = sample(9, -4.0, 4.0, 17);
    let det = determinant(&ad_matrix::<9>(&vals, 3)).unwrap();
    let m = plain_matrix(&vals, 3);
    let g = det.grad();
    let g_diff: f64 = (0..9).map(|k| (g[k].0 - det_grad(&m, k / 3, k % 3)).powi(2)).sum();
    close(g_diff, 0.0, EPS);
    let h = det.hess();
    for p in 0..9 {
        for q in 0..9 {
            assert_eq!(h[p][q].0, det_hess(&m, p / 3, p % 3, q / 3, q % 3));
        }
    }
}

#[test]
fn test_det4() {
    let vals = sample(16, -4.0, 4.0, 19);
    let det = determinant(&ad_matrix::<16>(&vals, 4)).unwrap();
    let m = plain_matrix(&vals, 4);
    let g = det.grad();
    let g_diff: f64 = (0..16).map(|k| (g[k].0 - det_grad(&m, k / 4, k % 4)).powi(2)).sum();
    close(g_diff, 0.0, EPS);
    let h = det.hess();
    let mut h_diff = 0.0;
    for p in 0..16 {
        for q in 0..16 {
            h_diff += (h[p][q].0 - det_hess(&m, p / 4, p % 4, q / 4, q % 4)).powi(2);
        }
    }
    close(h_diff, 0.0, EPS);
}

/// cos(‖sin(Z) Z‖) for a 2 x 2 matrix Z of AD values, entries row by row.
fn mm_expr(z: &Vec<Ad<F, 4>>) -> Ad<F, 4> {
    let sz: Vec<Ad<F, 4>> = z.iter().map(|x| x.sin()).collect();
    let mut p: Vec<Ad<F, 4>> = Vec::new();
    for i in 0..2 {
        for j in 0..2 {
            p.push(sz[i * 2].mul(&z[j]).add(&sz[i * 2 + 1].mul(&z[2 + j])));
        }
    }
    l2_norm(&p).unwrap().cos()
}

#[test]
fn test_mm() {
    for it in 0..100 {
        let vals = sample(4, -4.0, 4.0, 100 + it);
        let z = Ad::<F, 4>::active_from_slice(&vals.iter().map(|x| F(*x)).collect::<Vec<_>>());
        let res = mm_expr(&z);
        // reference: central differences of the value, and of the gradient
        let h = 1e-5;
        let at = |v: &Vec<f64>| {
            mm_expr(&Ad::<F, 4>::active_from_slice(&v.iter().map(|x| F(*x)).collect::<Vec<_>>()))
        };
        let mut dg = 0.0;
        let mut dh = 0.0;
        for k in 0..4 {
            let mut up = vals.clone();
            up[k] += h;
            let mut dn = vals.clone();
            dn[k] -= h;
            let (fu, fd) = (at(&up), at(&dn));
            let g = (fu.value().0 - fd.value().0) / (2.0 * h);
            dg += (res.grad()[k].0 - g).powi(2);
            for l in 0..4 {
                let hh = (fu.grad()[l].0 - fd.grad()[l].0) / (2.0 * h);
                dh += (res.hess()[k][l].0 - hh).powi(2);
            }
        }
        close(dg, 0.0, EPS);
        close(dh, 0.0, EPS);
    }
}

#[test]
fn testscalar_example() {
    let vars = Ad::<Val, 9>::active_from_slice(&[Val {}; 9]);
    let mat: Vec<Vec<Ad<Val, 9>>> =
        (0..3).map(|r| (0..3).map(|c| vars[r * 3 + c].copy()).collect()).collect();
    let d = determinant(&mat).unwrap();
    let n = l1_norm(&vars);
    println!("{:?}\n{:?}\n{:?}", d.value(), n.value(), mat.value().len());
}

#[test]
fn chain_matches_central_differences() {
    // g = exp(sin(x)) with g' = cos(x) g and g'' = (cos² x - sin x) g
    for k in 0..20 {
        let x = grid(-3.0, 3.0, k, 20);
        let g = |t: f64| t.sin().exp();
        let d = x.cos() * g(x);
        let d2 = (x.cos() * x.cos() - x.sin()) * g(x);
        let r = Ad::chain(F(g(x)), F(d), F(d2), &s1(x));
        let (fg, fh) = fd(&g, x);
        assert!((g0(&r) - fg).abs() <= 1e-6 * fg.abs().max(1.0));
        assert!((h0(&r) - fh).abs() <= 1e-5 * fh.abs().max(1.0));
    }
}

#[test]
fn hessians_are_symmetric() {
    let v = Ad::<F, 3>::active_from_slice(&[F(0.7), F(-1.3), F(2.1)]);
    let (a, b, c) = (&v[0], &v[1], &v[2]);
    let results = vec![
        a.mul(b).mul(c),
        a.div(b).unwrap().sub(&c.square()),
        a.atan2(&b.mul(c)).unwrap(),
        a.mul(c).sin().exp(),
        b.div_value(F(3.0)).unwrap().add(&a.mul(b).hypot(c).unwrap()),
        Ad::div_ad(F(2.0), &a.mul(b).add(c)).unwrap(),
        a.mul(b).powi(3).unwrap().mul_value(F(0.5)).tanh(),
    ];
    for r in &results {
        let h = r.hess();
        for i in 0..3 {
            for j in 0..3 {
                assert_eq!(h[i][j], h[j][i]);
            }
        }
    }
}

#[test]
fn determinant_agrees_with_cofactor_reference() {
    fn check<const N: usize>(dim: usize, seed: u64) {
        let vals = sample(dim * dim, -2.0, 2.0, seed);
        let det = determinant(&ad_matrix::<N>(&vals, dim)).unwrap();
        let m = plain_matrix(&vals, dim);
        close(det.value().0, plain_det(&m), 1e-10);
        let g = det.grad();
        for k in 0..N {
            close(g[k].0, det_grad(&m, k / dim, k % dim), 1e-10);
        }
        if dim <= 4 {
            let h = det.hess();
            for p in 0..N {
                for q in 0..N {
                    close(h[p][q].0, det_hess(&m, p / dim, p % dim, q / dim, q % dim), 1e-10);
                }
            }
        }
    }
    check::<1>(1, 1);
    check::<4>(2, 2);
    check::<9>(3, 3);
    check::<16>(4, 4);
    check::<25>(5, 5);
    check::<36>(6, 6);
}

#[test]
fn determinant_of_empty_matrix_is_one() {
    let m: Vec<Vec<Ad<F, 2>>> = Vec::new();
    let d = determinant(&m).unwrap();
    assert_eq!(d.value(), F(1.0));
    assert_eq!(d.grad(), vec![F(0.0), F(0.0)]);
}

#[test]
fn determinant_above_six_is_unsupported() {
    let vals = vec![1.0; 49];
    let m = ad_matrix::<1>(&[1.0], 1);
    let big: Vec<Vec<Ad<F, 1>>> =
        (0..7).map(|r| (0..7).map(|c| Ad::inactive_scalar(F(vals[r * 7 + c]))).collect()).collect();
    assert!(matches!(determinant(&big), Err(AdError::Unsupported)));
    assert!(determinant(&m).is_ok());
}

#[test]
fn zero_and_one_are_identities() {
    let v = Ad::<F, 2>::active_from_slice(&[F(1.5), F(-0.25)]);
    let a = v[0].mul(&v[1]).sin();
    let zero = Ad::<F, 2>::inactive_scalar(F(0.0));
    let one = Ad::<F, 2>::inactive_scalar(F(1.0));
    for r in [zero.add(&a), a.add(&zero), one.mul(&a), a.mul(&one)] {
        assert_eq!(r.value(), a.value());
        assert_eq!(r.grad(), a.grad());
        assert_eq!(r.hess(), a.hess());
    }
}

#[test]
fn powi_scenario() {
    let s = s1(2.4);
    close(g0(&s.powi(3).unwrap()), 17.28, 1e-10);
    let sv: f64 = -3.42;
    let s = s1(sv);
    let e = s.sin().mul(&s);
    close(g0(&e), sv * sv.cos() + sv.sin(), 1e-10);
    close(h0(&e), 2.0 * sv.cos() - sv * sv.sin(), 1e-10);
}

#[test]
fn division_by_zero_fails() {
    let r = s1(1.0).div(&c1(0.0));
    assert!(matches!(r, Err(AdError::Domain)));
    assert!(matches!(s1(1.0).div(&c1(-0.0)), Err(AdError::Domain)));
    assert!(matches!(s1(0.0).recip(), Err(AdError::Domain)));
    assert!(matches!(s1(1.0).div_value(F(0.0)), Err(AdError::Domain)));
}

#[test]
fn domain_errors() {
    assert!(matches!(s1(-1.0).sqrt(), Err(AdError::Domain)));
    assert!(s1(0.0).sqrt().is_ok());
    assert!(matches!(s1(0.0).ln(), Err(AdError::Domain)));
    assert!(matches!(s1(-2.0).log2(), Err(AdError::Domain)));
    assert!(matches!(s1(0.0).log10(), Err(AdError::Domain)));
    assert!(matches!(s1(2.0).log(F(-1.0)), Err(AdError::Domain)));
    assert!(matches!(s1(0.0).powi(0), Err(AdError::Domain)));
    assert!(matches!(s1(0.0).powf(F(0.0)), Err(AdError::Domain)));
    assert!(matches!(s1(1.5).asin(), Err(AdError::Domain)));
    assert!(matches!(s1(-1.5).acos(), Err(AdError::Domain)));
    assert!(matches!(s1(0.5).acosh(), Err(AdError::Domain)));
    assert!(matches!(s1(1.0).atanh(), Err(AdError::Domain)));
    assert!(s1(0.5).atanh().is_ok());
    assert!(matches!(s1(0.0).atan2(&c1(0.0)), Err(AdError::Domain)));
    assert!(s1(0.0).atan2(&c1(1.0)).is_ok());
}

#[test]
fn exact_values_of_elementary_rules() {
    // product: d(xy)/dx = y, d²(xy)/dxdy = 1
    let v = Ad::<F, 2>::active_from_slice(&[F(3.0), F(5.0)]);
    let p = v[0].mul(&v[1]);
    assert_eq!(p.value(), F(15.0));
    assert_eq!(p.grad(), vec![F(5.0), F(3.0)]);
    assert_eq!(p.hess(), vec![vec![F(0.0), F(1.0)], vec![F(1.0), F(0.0)]]);
    // quotient x/y at (3, 5)
    let q = v[0].div(&v[1]).unwrap();
    close(q.grad()[0].0, 0.2, 1e-15);
    close(q.grad()[1].0, -3.0 / 25.0, 1e-15);
    close(q.hess()[0][1].0, -1.0 / 25.0, 1e-15);
    close(q.hess()[1][1].0, 6.0 / 125.0, 1e-15);
    // atan2(y, x) at (y, x) = (3, 5): gradient (x, -y) / (x² + y²)
    let a = v[0].atan2(&v[1]).unwrap();
    close(a.grad()[0].0, 5.0 / 34.0, 1e-15);
    close(a.grad()[1].0, -3.0 / 34.0, 1e-15);
    // min, max and clamp pick whole operands by value
    assert_eq!(v[0].min(&v[1]).grad(), v[0].grad());
    assert_eq!(v[0].max(&v[1]).grad(), v[1].grad());
    assert_eq!(v[1].clamp(&v[0], &v[0]).grad(), v[0].grad());
    // abs flips the derivatives of a negative value
    let n = v[0].neg();
    assert_eq!(n.abs().grad(), vec![F(1.0), F(0.0)]);
    assert_eq!(n.abs().value(), F(3.0));
    // 2^(xy): derivatives ln 2 · 2^(xy) · (y, x)
    let e = Ad::pow_ad(F(2.0), &p).unwrap();
    close(e.value().0, 32768.0, 1e-9);
    close(e.grad()[0].0, 32768.0 * 2f64.ln() * 5.0, 1e-7);
    close(e.hess()[0][1].0, 32768.0 * (2f64.ln().powi(2) * 15.0 + 2f64.ln()), 1e-6);
    assert!(matches!(Ad::pow_ad(F(-1.0), &p), Err(AdError::Domain)));
    // values added or subtracted keep the derivatives
    assert_eq!(v[0].add_value(F(2.0)).grad(), v[0].grad());
    assert_eq!(v[0].sub_value(F(2.0)).value(), F(1.0));
}

#[test]
fn first_power_of_zero_keeps_derivatives() {
    let v = Ad::<F, 2>::active_from_slice(&[F(0.0), F(3.0)]);
    let a = v[0].mul(&v[1]);
    for r in [a.powi(1).unwrap(), a.powf(F(1.0)).unwrap()] {
        assert_eq!(r.value(), F(0.0));
        assert_eq!(r.grad(), a.grad());
        assert_eq!(r.hess(), a.hess());
    }
    let sq = a.powi(2).unwrap();
    assert_eq!(sq.grad(), vec![F(0.0), F(0.0)]);
    assert_eq!(sq.hess(), vec![vec![F(18.0), F(0.0)], vec![F(0.0), F(0.0)]]);
}

#[test]
fn constructors() {
    let g = Ad::<F, 1>::given_scalar(F(2.0), F(3.0), F(4.0));
    assert_eq!((g.value(), g.grad(), g.hess()), (F(2.0), vec![F(3.0)], vec![vec![F(4.0)]]));
    let a = Ad::<F, 3>::active_scalar_with_index(F(7.0), 1);
    assert_eq!(a.grad(), vec![F(0.0), F(1.0), F(0.0)]);
    assert_eq!(a.hess(), vec![vec![F(0.0); 3]; 3]);
    let c = Ad::<F, 3>::inactive_vector(&vec![F(1.0), F(2.0), F(3.0)]);
    assert_eq!(c[2].value(), F(3.0));
    assert_eq!(c[2].grad(), vec![F(0.0); 3]);
    let v = Ad::<F, 2>::active_vector(&vec![F(1.0), F(2.0)]);
    assert_eq!(v[1].grad(), vec![F(0.0), F(1.0)]);
    let h = vec![vec![F(1.0), F(2.0)], vec![F(2.0), F(5.0)]];
    let gv = Ad::<F, 2>::given_vector(F(9.0), &vec![F(1.0), F(-1.0)], &h);
    assert_eq!(gv.hess(), h);
    let s = Ad::<F, 1>::inactive_from_slice(&[F(4.0)]);
    assert_eq!(s[0].grad(), vec![F(0.0)]);
}

#[test]
fn norms() {
    let v = Ad::<F, 3>::active_from_slice(&[F(3.0), F(-4.0), F(1.0)]);
    let l1 = l1_norm(&v);
    assert_eq!(l1.value(), F(8.0));
    assert_eq!(l1.grad(), vec![F(1.0), F(-1.0), F(1.0)]);
    let l2s = l2_norm_squared(&v);
    assert_eq!(l2s.value(), F(26.0));
    assert_eq!(l2s.grad(), vec![F(6.0), F(-8.0), F(2.0)]);
    let inf = linf_norm(&v);
    assert_eq!(inf.value(), F(4.0));
    assert_eq!(inf.grad(), vec![F(0.0), F(-1.0), F(0.0)]);
    let l2 = l2_norm(&v).unwrap();
    close(l2.value().0, 26f64.sqrt(), 1e-15);
    let w = Ad::<F, 3>::active_from_slice(&[F(1.0), F(2.0), F(2.0)]);
    let lk = lk_norm(&w, 2).unwrap();
    close(lk.value().0, 3.0, 1e-15);
    close(lk.grad()[1].0, 2.0 / 3.0, 1e-15);
    let z = Ad::<F, 2>::active_from_slice(&[F(0.0), F(2.0)]);
    assert!(matches!(lk_norm(&z, 0), Err(AdError::Domain)));
}
