[package]
name = "pichu"
version = "0.1.0"
edition = "2021"
publish = false

[dependencies]
blake3 = { version = "=1.8.7", features = ["pure"] }
comrak = { version = "=0.44.0", default-features = false, features = ["syntect"] }
glob = "=0.3.4"
grass = { version = "=0.13.4", default-features = false }
gray_matter = "=0.2.9"
notify-debouncer-mini = "=0.7.0"
rayon = "=1.12.0"
serde = { version = "=1.0.229", features = ["derive"] }
serde_json = "=1.0.154"
thiserror = "=2.0.21"
