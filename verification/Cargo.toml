[package]
name = "heat_eq"
version = "0.1.0"
edition = "2021"
publish = false

[dependencies]
exmex = "*"
itertools = "*"
itertools-num = "*"
quadrature = "*"
ron = "*"
serde = { version = "*", features = ["derive"] }
splines = "*"
