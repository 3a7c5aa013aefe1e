[package]
name = "nenechi"
version = "0.1.0"
edition = "2021"
publish = false

[dependencies]
chrono = "=0.4.45"
clap = { version = "=4.6.7", features = ["derive"] }
diesel = { version = "=2.3.14", features = ["sqlite", "r2d2"] }
fern = "=0.7.1"
glob = "=0.3.4"
image = { version = "=0.25.10", default-features = false, features = ["jpeg", "png", "gif", "webp", "bmp", "tiff"] }
log = "=0.4.35"
quick-xml = { version = "=0.37.5", features = ["serialize"] }
regex = "=1.13.1"
reqwest = { version = "=0.12.28", default-features = false, features = ["blocking", "json"] }
serde = { version = "=1.0.229", features = ["derive"] }
serde_json = "=1.0.154"
serde_with = { version = "=3.24.0", features = ["base64"] }
serde_yaml = "=0.9.34"
uuid = { version = "=1.29.0", features = ["v7"] }
walkdir = "=2.5.0"
