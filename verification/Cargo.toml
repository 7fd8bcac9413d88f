[package]
name = "ledger_manager"
version = "0.1.0"
edition = "2021"
publish = false

[dependencies]
hex = "=0.4.3"
form_urlencoded = "=1.2.2"
urlencoding = "=2.1.3"
ledger-apdu = "=0.10.0"
ledger-transport-hidapi = "=0.10.0"
minreq = { version = "=2.14.1", features = ["https", "json-using-serde"] }
tungstenite = { version = "=0.24.0", features = ["rustls-tls-native-roots"] }
serde = { version = "=1.0.229", features = ["derive"] }
serde_derive = "=1.0.229"
serde_json = "=1.0.154"
thiserror = "=1.0.69"
dialoguer = "=0.11.0"
console = "=0.15.11"
sha2 = "0.10"
