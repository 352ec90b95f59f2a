[package]
name = "breez_nwc"
version = "0.1.0"
edition = "2021"
publish = false

[dependencies]
aes-gcm-siv = "=0.11.1"
anyhow = "1"
bip39 = { version = "=2.2.2", features = ["rand"] }
futures-util = "0.3"
indexed_db_futures = "=0.6.4"
log = "0.4"
lwk_wollet = { version = "=0.9.0", default-features = false, features = ["esplora"] }
maybe-sync = "=0.1.1"
nostr = { version = "=0.43.1", features = ["std", "nip44", "nip47"] }
nostr-sdk = { version = "=0.43.0", features = ["nip44", "nip47"] }
serde = { version = "1", features = ["derive"] }
serde_json = "=1.0.154"
tokio = { version = "1", features = ["macros", "rt", "sync", "time"] }
tokio-tungstenite = { version = "=0.21.0", features = ["connect"] }
tokio_with_wasm = { version = "=0.8.8", features = ["macros", "rt", "sync", "time"] }
url = "=2.5.8"
wasm-bindgen-futures = "=0.4.80"
