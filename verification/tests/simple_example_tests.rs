use marketing_iv_methods::generate::{dep_var_generate, ind_var_generate, DepVars, IndVars};
use marketing_iv_methods::rat::Rat;

/// A deterministic stand-in for a sampled column: n small distinct rationals.
fn make_column(n: usize, offset: i128) -> Vec<Rat> {
    let mut out = Vec::new();
    for i in 0..n {
        let num = offset + 3 * (i as i128) - (n as i128);
        out.push(Rat::new(num, 8).unwrap());
    }
    out
}

fn valid_input() -> (usize, Rat, Rat, Rat) {
    (
        10,
        Rat::new(5, 2).unwrap(),
        Rat::new(1, 1).unwrap(),
        Rat::new(1, 2).unwrap(),
    )
}

fn generate_valid_data() -> IndVars {
    let (n, alpha_x, sigma_a, sigma_ex) = valid_input();
    ind_var_generate(alpha_x, sigma_a, sigma_ex, make_column(n, 1), make_column(n, 5)).unwrap()
}

fn valid_input_y() -> (Rat, Rat, Rat, IndVars) {
    let ind_vars = generate_valid_data();
    (
        Rat::new(1, 2).unwrap(),
        Rat::new(3, 2).unwrap(),
        Rat::new(1, 1).unwrap(),
        ind_vars,
    )
}

fn generate_valid_data_y() -> DepVars {
    let (beta, alpha_y, sigma_ey, ind_vars) = valid_input_y();
    let n = ind_vars.x.len();
    dep_var_generate(beta, alpha_y, sigma_ey, ind_vars, make_column(n, 7)).unwrap()
}

fn input_with_negative_sigma_a() -> (usize, Rat, Rat, Rat) {
    let (n, alpha_x, _, sigma_ex) = valid_input();
    (n, alpha_x, Rat::new(-1, 1).unwrap(), sigma_ex)
}

fn input_with_negative_sigma_ex() -> (usize, Rat, Rat, Rat) {
    let (n, alpha_x, sigma_a, _) = valid_input();
    (n, alpha_x, sigma_a, Rat::new(-1, 2).unwrap())
}

fn input_with_negative_sigma_ey() -> (Rat, Rat, Rat, IndVars) {
    let (beta, alpha_y, _, ind_vars) = valid_input_y();
    (beta, alpha_y, Rat::new(-1, 1).unwrap(), ind_vars)
}

#[test]
fn test_errors_on_negative_sigma_a() {
    let (n, alpha_x, sigma_a, sigma_ex) = input_with_negative_sigma_a();
    let result = ind_var_generate(alpha_x, sigma_a, sigma_ex, make_column(n, 1), make_column(n, 5));
    assert!(result.is_err(), "Expected error for negative sigma_a, but got Ok");
    assert_eq!(result.unwrap_err().message(), "sigma_a must be positive");
}

#[test]
fn test_errors_on_negative_sigma_ex() {
    let (n, alpha_x, sigma_a, sigma_ex) = input_with_negative_sigma_ex();
    let result = ind_var_generate(alpha_x, sigma_a, sigma_ex, make_column(n, 1), make_column(n, 5));
    assert!(result.is_err(), "Expected error for negative sigma_ex, but got Ok");
    assert_eq!(result.unwrap_err().message(), "sigma_ex must be positive");
}

#[test]
fn test_errors_on_negative_sigma_ey() {
    let (beta, alpha_y, sigma_ey, ind_vars) = input_with_negative_sigma_ey();
    let n = ind_vars.x.len();
    let result = dep_var_generate(beta, alpha_y, sigma_ey, ind_vars, make_column(n, 7));
    assert!(result.is_err(), "Expected error for negative sigma_ex, but got Ok");
    assert_eq!(result.unwrap_err().message(), "sigma_ey must be positive");
}

#[test]
fn test_x_shape_matches_v() {
    let data = generate_valid_data();
    assert_eq!(data.x.len(), data.v.len());
    assert_eq!(data.x.len(), 10);
}

#[test]
fn test_y_shape_matches_v() {
    let data = generate_valid_data_y();
    assert_eq!(data.y.len(), data.ind_vars.v.len());
}

#[test]
fn test_x_value() {
    let data = generate_valid_data();
    for i in 0..data.x.len() {
        let expected = data.alpha_x.times(&data.v[i]).unwrap().plus(&data.e_x[i]).unwrap();
        assert_eq!(data.x[i], expected);
    }
}

#[test]
fn test_y_value() {
    let data = generate_valid_data_y();
    for i in 0..data.y.len() {
        let bx = data.beta.times(&data.ind_vars.x[i]).unwrap();
        let av = data.alpha_y.times(&data.ind_vars.v[i]).unwrap();
        let expected = bx.plus(&av).unwrap().plus(&data.e_y[i]).unwrap();
        assert_eq!(data.y[i], expected);
    }
}

#[test]
fn test_empty_columns_are_degenerate_but_legal() {
    let (_, alpha_x, sigma_a, sigma_ex) = valid_input();
    let result = ind_var_generate(alpha_x, sigma_a, sigma_ex, Vec::new(), Vec::new());
    let data = result.unwrap();
    assert_eq!(data.x.len(), 0);
    assert_eq!(data.v.len(), 0);
}

#[test]
fn test_mismatched_draws_are_rejected() {
    let (n, alpha_x, sigma_a, sigma_ex) = valid_input();
    let result = ind_var_generate(alpha_x, sigma_a, sigma_ex, make_column(n, 1), make_column(n + 1, 5));
    assert_eq!(result.unwrap_err().message(), "columns must share one length");
}
