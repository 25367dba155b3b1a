[package]
name = "vsn"
version = "0.1.0"
edition = "2021"
publish = false

[dependencies]
serde = { version = "=1.0.229", features = ["derive"] }
serde_json = "=1.0.154"
thiserror = "=1.0.69"
sha2 = "=0.10.9"
argon2 = "=0.5.3"
data-encoding = "=2.11.1"
base64 = "=0.22.1"
rand_core = { version = "=0.6.4", features = ["getrandom"] }
totp-rs = { version = "=5.7.2", features = ["otpauth"] }
postgres = "=0.19.14"
native-tls = "=0.2.18"
postgres-native-tls = "=0.5.3"
rusqlite = { version = "=0.31.0", features = ["bundled"] }
directories = "=5.0.1"
fs2 = "=0.4.3"
uuid = { version = "=1.29.0", features = ["v4"] }
