[package]
name = "async_discord"
version = "0.1.0"
edition = "2021"
publish = false

[dependencies]
flate2 = "1"
serde = { version = "1", features = ["derive"] }
serde_json = "1"
futures = "0.3"
twilight-model = "0.1"
async-std = "1"
async-tungstenite = { version = "0.8", features = ["async-std-runtime", "async-native-tls"] }
async-native-tls = "0.3"
surf = "1"
log = "0.4"
async-trait = "0.1"
typemap = "0.3"
