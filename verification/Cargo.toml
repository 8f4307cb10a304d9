[package]
name = "ule_net"
version = "0.1.0"
edition = "2021"
publish = false

[dependencies]
ahash = "*"
mio = { version = "*", features = ["os-poll", "net"] }
serde = { version = "*", features = ["derive"] }
serde_json = "*"
log = "*"
fern = { version = "*", features = ["colored"] }
chrono = "*"
lazy_static = "*"
