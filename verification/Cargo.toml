[package]
name = "ark-hybrid-compression"
version = "0.1.0"
edition = "2021"
publish = false

[dependencies]
ark-ff = "=0.6.0"
ark-ed-on-bn254 = "=0.6.0"
ark-std = "=0.6.0"
ark-crypto-primitives = { version = "=0.6.0", features = ["crh", "sponge", "constraints"] }
ark-r1cs-std = "=0.6.0"
ark-relations = "=0.6.0"
alloy-primitives = "=1.7.3"
thiserror = "=2.0.21"
