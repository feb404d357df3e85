[package]
name = "gdiroh"
version = "0.1.0"
edition = "2021"
publish = false

[dependencies]
anyhow = "1"
clap = { version = "4", default-features = false, features = ["derive", "std"] }
godot = "=0.4.5"
iroh = { version = "=0.95.1", default-features = false }
iroh-gossip = { version = "=0.95.0", default-features = false, features = ["net"] }
tokio = { version = "=1.54.1", features = ["rt-multi-thread", "net", "time"] }
blake3 = { version = "=1.8.2", default-features = false }
der = { version = "=0.8.0-rc.9", default-features = false }
ed25519 = { version = "=3.0.0-rc.1", default-features = false }
hyper-util = { version = "=0.1.17", default-features = false }
pem-rfc7468 = { version = "=1.0.0-rc.3", default-features = false }
pkarr = { version = "=5.0.0", default-features = false }
pkcs8 = { version = "=0.11.0-rc.7", default-features = false }
signature = { version = "=3.0.0-rc.4", default-features = false }
spki = { version = "=0.8.0-rc.4", default-features = false }
uuid = { version = "=1.18.1", default-features = false }
