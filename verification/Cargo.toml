[package]
name = "derive_ex"
version = "0.1.0"
edition = "2021"
publish = false

[dependencies]
proc-macro2 = "=1.0.107"
quote = "=1.0.47"
structmeta = "=0.3.0"
syn = { version = "=2.0.119", features = ["full", "visit", "visit-mut", "extra-traits"] }

[dev-dependencies]
ordered-float = "*"
