[package]
name = "foreign_assets"
version = "0.1.0"
edition = "2021"
publish = false

[dependencies]
parity-scale-codec = { version = "3", features = ["derive", "max-encoded-len"] }
scale-info = { version = "2", features = ["derive"] }
bounded-collections = "*"
primitive-types = "*"
sp-arithmetic = "*"
sp-weights = "*"
staging-xcm = "*"
log = "0.4"
