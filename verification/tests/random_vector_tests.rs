//! Tests of the random-distribution collaborator the harness relies on:
//! drawing an (n x 1) column of independent samples from a scalar
//! distribution, as the application shell does before handing the draws to
//! the library.

use ndarray::Array2;
use ndarray_rand::rand::rngs::StdRng;
use ndarray_rand::rand::SeedableRng;
use ndarray_rand::rand_distr::{Normal, Uniform};
use ndarray_rand::RandomExt;

#[test]
fn test_vector_size() {
    let dist = Normal::new(0.0, 1.0).unwrap();
    let vec = Array2::<f64>::random((5, 1), dist);
    assert_eq!(vec.shape(), &[5, 1])
}

#[test]
fn test_vector_size_normal() {
    let dist = Normal::new(0.0, 1.0).unwrap();
    let vec = Array2::<f64>::random((5, 1), dist);
    assert_eq!(vec.shape(), &[5, 1])
}

#[test]
fn test_vector_size_uniform() {
    let dist = Uniform::new(0.0, 1.0);
    let vec = Array2::<f64>::random((5, 1), dist);
    assert_eq!(vec.shape(), &[5, 1])
}

#[test]
fn test_vector_stats_normal() {
    // With a million draws the tolerance below sits close to one standard
    // error of the sample mean, so the draw is seeded to keep the check
    // reproducible.
    let dist = Normal::new(0.0, 9.0).unwrap();
    let mut rng = StdRng::seed_from_u64(42);
    let vec = Array2::<f64>::random_using((1000000, 1), dist, &mut rng);
    let binding = vec.view();
    let flattened = binding.to_shape(vec.len()).unwrap();

    // sample mean
    let mean = flattened.mean().unwrap();

    // sample standard deviation
    let std = flattened.std(1.0);

    // compare to population mean and standard deviation
    assert!((mean - 0.0).abs() < 1e-2, "Expected values to be close, but got mean = {}", mean);
    assert!(
        (std - 9.0).abs() < 1e-2,
        "Expected values to be close, but got standard deviation = {}",
        std
    );
}
