[package]
name = "backend"
version = "0.1.0"
edition = "2021"
publish = false

[dependencies]
actix-web = { version = "=4.18.1", default-features = false, features = ["macros", "cookies"] }
argon2 = "=0.5.3"
base64 = "=0.22.1"
boringtun = { version = "=0.6.0", default-features = false }
bs58 = "=0.5.1"
chrono = { version = "=0.4.45", features = ["unstable-locales"] }
dashmap = "=6.2.1"
futures-util = "=0.3.34"
governor = "=0.10.4"
ipnetwork = "=0.21.1"
jsonwebtoken = "=9.3.1"
log = "=0.4.35"
lru = "*"
num_cpus = "=1.17.0"
rand = "=0.10.3"
rand_core = "=0.10.1"
serde = { version = "=1.0.229", features = ["derive"] }
serde_json = "=1.0.154"
tokio = { version = "=1.54.1", features = ["sync", "rt", "macros", "time"] }
uuid = { version = "=1.29.0", features = ["v4"] }
validator = "=0.21.0"
