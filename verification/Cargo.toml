[package]
name = "etterna_base"
version = "0.1.0"
edition = "2021"
publish = false

[dependencies]
btoi = "0.4"
itertools = "0.10"
lexical-core = "0.7"
libm = "0.2"
permutation = "*"
rayon = "1"
serde = { version = "1", features = ["derive"] }
thiserror = "1"
