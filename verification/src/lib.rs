//! A Monte-Carlo experiment harness for studying omitted-variable bias in
//! linear regression.
//!
//! The library builds synthetic data under an explicit causal model: a latent
//! confounder `v` drives both an observed regressor `x = alpha_x * v + e_x`
//! and an outcome `y = beta * x + alpha_y * v + e_y`.  It prepares the
//! ordinary-least-squares problems that compare the full regression of `y` on
//! `[x, v]` against the naive regression of `y` on `x` alone, and computes the
//! closed-form asymptotic bias of the naive estimate,
//! `(alpha_y * alpha_x * sigma_a^2) / (alpha_x^2 * sigma_a^2 + sigma_ex^2)`.
//!
//! All quantities are exact rational numbers ([`rat::Rat`]), so every
//! structural identity of the causal model is established precisely.  Drawing
//! the random samples and solving the least-squares problems are left to
//! outside collaborators, which receive plain values from this library and
//! hand plain values back.

pub mod error;
pub mod generate;
pub mod rat;
pub mod regression;
pub mod sweep;
