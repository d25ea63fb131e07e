[package]
name = "factory_kernel"
version = "0.1.0"
edition = "2021"
publish = false

[dependencies]
blake3 = "=1.8.7"
miniserde = "=0.1.46"
rustix = { version = "=1.1.6", features = ["process"] }
smol = "=2.0.2"
sqlx = { version = "=0.9.0", default-features = false, features = ["migrate", "postgres", "runtime-smol"] }
thiserror = "=2.0.21"
tracing = "=0.1.44"
