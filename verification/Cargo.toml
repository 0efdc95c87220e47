[package]
name = "irpc"
version = "0.1.0"
edition = "2021"
publish = false

[dependencies]
anyhow = "=1.0.104"
bytes = "=1.12.1"
futures-util = "=0.3.34"
iroh = { version = "=1.4.1", default-features = false }
libc = "=0.2.191"
n0-future = "=0.3.2"
noq = { version = "=1.4.0", default-features = false, features = ["runtime-tokio", "rustls-ring"] }
noq-proto = { version = "=1.4.0", default-features = false }
postcard = { version = "=1.1.3", features = ["use-std", "experimental-derive"] }
proc-macro2 = "=1.0.107"
quote = "=1.0.47"
rcgen = "=0.13.2"
rustls = { version = "=0.23.46", default-features = false, features = ["std", "ring"] }
seahash = "=4.1.0"
serde = { version = "=1.0.229", features = ["derive"] }
smallvec = { version = "=1.16.4", features = ["write"] }
syn = { version = "=2.0.119", features = ["full", "extra-traits"] }
thousands = "=0.2.0"
tokio = { version = "=1.54.1", features = ["full"] }
tracing = "=0.1.44"
tracing-subscriber = "=0.3.23"
