[package]
name = "logistic_irls"
version = "0.1.0"
edition = "2021"
publish = false

[dependencies]
nalgebra = "*"
log = "*"
crossterm = "*"
tokio = { version = "1", features = ["sync", "rt"] }

[dev-dependencies]
rand = "*"
rand_distr = "*"
