//! End-to-end checks against a least-squares solve: the full regression
//! recovers the structural coefficients, and the naive coefficient's bias
//! converges to the analytic closed form as the sample grows.

use marketing_iv_methods::rat::Rat;
use marketing_iv_methods::regression::{run_other_regressions, run_yxv_regression, ExperimentConfig};

use ndarray::Array2;
use ndarray_rand::rand_distr::Normal;
use ndarray_rand::RandomExt;

const SCALE: i128 = 1 << 20;

fn rat_of(x: f64) -> Rat {
    Rat::new((x * SCALE as f64).round() as i128, SCALE).unwrap()
}

fn to_f64(q: &Rat) -> f64 {
    q.num as f64 / q.den as f64
}

/// Draws an n-sample column from a zero-mean normal with the given standard
/// deviation, quantized to exact rationals.
fn normal_column(n: usize, sd: f64) -> Vec<Rat> {
    let dist = Normal::new(0.0, sd).unwrap();
    let draws = Array2::<f64>::random((n, 1), dist);
    draws.column(0).iter().map(|x| rat_of(*x)).collect()
}

fn col_f64(col: &[Rat]) -> Vec<f64> {
    col.iter().map(to_f64).collect()
}

/// Least squares of `y` on one column without intercept.
fn ols_one(x: &[f64], y: &[f64]) -> f64 {
    let sxy: f64 = x.iter().zip(y.iter()).map(|(a, b)| a * b).sum();
    let sxx: f64 = x.iter().map(|a| a * a).sum();
    sxy / sxx
}

/// Least squares of `y` on two columns without intercept, by the normal
/// equations.
fn ols_two(x: &[f64], v: &[f64], y: &[f64]) -> (f64, f64) {
    let sxx: f64 = x.iter().map(|a| a * a).sum();
    let svv: f64 = v.iter().map(|a| a * a).sum();
    let sxv: f64 = x.iter().zip(v.iter()).map(|(a, b)| a * b).sum();
    let sxy: f64 = x.iter().zip(y.iter()).map(|(a, b)| a * b).sum();
    let svy: f64 = v.iter().zip(y.iter()).map(|(a, b)| a * b).sum();
    let det = sxx * svv - sxv * sxv;
    ((sxy * svv - svy * sxv) / det, (sxx * svy - sxv * sxy) / det)
}

fn scenario_config(n: usize) -> ExperimentConfig {
    ExperimentConfig {
        n,
        beta: Rat::new(-1, 2).unwrap(),
        alpha_y: Rat::new(3, 2).unwrap(),
        alpha_x: Rat::new(5, 2).unwrap(),
        sigma_a: Rat::new(1, 1).unwrap(),
        sigma_ex: Rat::new(1, 1).unwrap(),
        sigma_ey: Rat::new(1, 1).unwrap(),
        include_intercept: false,
    }
}

#[test]
fn test_full_and_naive_regressions_at_n_10000() {
    let n = 10000;
    let config = scenario_config(n);
    let v = normal_column(n, 1.0);
    let e_x = normal_column(n, 1.0);
    let e_y = normal_column(n, 1.0);
    let (req, data) = run_yxv_regression(&config, v, e_x, e_y).unwrap();
    let x = col_f64(&req.columns[0]);
    let vv = col_f64(&req.columns[1]);
    let y = col_f64(&req.response);
    let (b_x, b_v) = ols_two(&x, &vv, &y);
    // The full regression recovers the structural coefficients.
    assert!((b_x - (-0.5)).abs() < 0.2, "coefficient on x was {}", b_x);
    assert!((b_v - 1.5).abs() < 0.2, "coefficient on v was {}", b_v);
    // The naive regression is off by about the analytic bias.
    let (yx_req, _, bias) = run_other_regressions(&data, false).unwrap();
    let naive = ols_one(&col_f64(&yx_req.columns[0]), &col_f64(&yx_req.response));
    assert!(
        (naive - (-0.5 + to_f64(&bias))).abs() < 0.1,
        "naive coefficient was {}, analytic bias {}",
        naive,
        to_f64(&bias)
    );
}

#[test]
fn test_naive_bias_converges_to_analytic_value() {
    let n = 1000000;
    let config = scenario_config(n);
    let v = normal_column(n, 1.0);
    let e_x = normal_column(n, 1.0);
    let e_y = normal_column(n, 1.0);
    let (_, data) = run_yxv_regression(&config, v, e_x, e_y).unwrap();
    let (yx_req, _, bias) = run_other_regressions(&data, false).unwrap();
    let naive = ols_one(&col_f64(&yx_req.columns[0]), &col_f64(&yx_req.response));
    let simulated_bias = naive - (-0.5);
    assert!(
        (simulated_bias - to_f64(&bias)).abs() < 1e-2,
        "simulated bias {} vs analytic {}",
        simulated_bias,
        to_f64(&bias)
    );
}
