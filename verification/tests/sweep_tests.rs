use marketing_iv_methods::rat::Rat;
use marketing_iv_methods::sweep::sweep_bias;

fn to_f64(q: &Rat) -> f64 {
    q.num as f64 / q.den as f64
}

#[test]
fn test_sweep_alpha_y_range() {
    // alpha_y over 21 evenly spaced values from 1.0 to 3.0, the other
    // parameters fixed: every value succeeds, in input order, and the bias
    // grows monotonically with alpha_y.
    let sigma_a = Rat::new(1, 1).unwrap();
    let sigma_ex = Rat::new(1, 1).unwrap();
    let alpha_x = Rat::new(5, 2).unwrap();
    let mut values = Vec::new();
    for i in 0..21 {
        values.push(Rat::new(10 + i, 10).unwrap());
    }
    let outcome = sweep_bias(&sigma_a, &sigma_ex, &alpha_x, &values);
    assert_eq!(outcome.param_values.len(), 21);
    assert_eq!(outcome.bias_values.len(), 21);
    assert_eq!(outcome.failures.len(), 0);
    for i in 0..21 {
        assert_eq!(outcome.param_values[i], values[i]);
        // bias = (alpha_y * 2.5) / (6.25 + 1).
        let expected = to_f64(&values[i]) * 2.5 / 7.25;
        assert!((to_f64(&outcome.bias_values[i]) - expected).abs() < 1e-12);
    }
    for i in 1..21 {
        assert!(to_f64(&outcome.bias_values[i]) > to_f64(&outcome.bias_values[i - 1]));
    }
}

#[test]
fn test_sweep_skips_failed_value() {
    let sigma_a = Rat::new(1, 1).unwrap();
    let sigma_ex = Rat::new(1, 1).unwrap();
    let alpha_x = Rat::new(5, 2).unwrap();
    let huge = Rat::new(i128::MAX, 1).unwrap();
    let values = vec![Rat::new(1, 1).unwrap(), huge, Rat::new(2, 1).unwrap()];
    let outcome = sweep_bias(&sigma_a, &sigma_ex, &alpha_x, &values);
    assert_eq!(outcome.param_values.len(), 2);
    assert_eq!(outcome.bias_values.len(), 2);
    assert_eq!(outcome.param_values[0], values[0]);
    assert_eq!(outcome.param_values[1], values[2]);
    assert_eq!(outcome.failures.len(), 1);
    assert_eq!(outcome.failures[0], huge);
}
