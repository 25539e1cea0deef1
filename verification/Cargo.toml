[package]
name = "machine_attest"
version = "0.1.0"
edition = "2021"
publish = false

[dependencies]
mac_address = "*"
sysinfo = "*"
tokio = { version = "*", features = ["macros", "rt-multi-thread"] }
tokio-postgres = "*"
native-tls = "*"
postgres-native-tls = "*"
