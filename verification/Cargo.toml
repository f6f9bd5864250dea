[package]
name = "imagik"
version = "0.1.0"
edition = "2021"
publish = false

[dependencies]
lru = "*"
blake3 = "1"
percent-encoding = "2"
axum = "0.8"
tokio = { version = "1", features = ["rt-multi-thread", "macros", "net", "time", "fs", "sync", "io-util"] }
redis = { version = "*", features = ["tokio-comp", "connection-manager"] }
reqwest = { version = "0.12", default-features = false, features = ["rustls-tls"] }
aws-config = { version = "1", features = ["behavior-version-latest"] }
aws-credential-types = "1"
aws-sdk-s3 = "1"
image = "0.25"
imageproc = "*"
ab_glyph = "*"
fast_image_resize = "*"
fastrand = "2"
dotenvy = "0.15"
webp = "*"
