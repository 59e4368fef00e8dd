[package]
name = "jabuti"
version = "1.0.3"
edition = "2021"
publish = false

[dependencies]
aes-gcm = "0.10"
base64 = "0.22"
chrono = { version = "0.4", features = ["serde"] }
clap = { version = "4", features = ["derive"] }
keyring-core = "*"
rand_core = { version = "0.6", features = ["getrandom"] }
serde = { version = "1", features = ["derive"] }
serde_json = "1"
sha2 = "0.10"
thiserror = "2"
uuid = { version = "1", features = ["v4"] }
zbus-secret-service-keyring-store = { version = "*", default-features = false, features = ["crypto-rust"] }
zeroize = "1"
