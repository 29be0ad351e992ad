[package]
name = "wrangler"
version = "0.1.0"
edition = "2021"
publish = false

[dependencies]
cloudflare = { version = "*", default-features = false }
config = "0.10"
dirs = "5"
failure = "0.1"
fs2 = "0.4"
log = "0.4"
notify = "4"
rand = "0.7"
serde = { version = "1", features = ["derive"] }
serde_json = "1"
url = "2"
which = "4"
