[package]
name = "chive_runtime"
version = "0.1.0"
edition = "2021"
publish = false

[dependencies]
sp-arithmetic = "*"
sp-weights = "*"
smallvec = "*"
parity-scale-codec = { version = "*", features = ["derive", "max-encoded-len"] }
scale-info = { version = "*", features = ["derive"] }
