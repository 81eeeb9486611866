[package]
name = "marketing_iv_methods"
version = "0.1.0"
edition = "2021"
publish = false

[dependencies]
ndarray = "0.15"
ndarray-rand = "0.14"
linfa = "0.7"
linfa-linear = "0.7"
plotters = "0.3"
