[package]
name = "spotui"
version = "0.1.0"
edition = "2021"
publish = false

[dependencies]
embedded-graphics = "=0.8.2"
env_logger = "=0.11.11"
libc = "=0.2.191"
librespot = { version = "=0.8.0", default-features = false, features = ["rustls-tls-webpki-roots"] }
serde_json = "=1.0.154"
tokio = { version = "=1.54.1", features = ["io-util", "macros", "net", "rt-multi-thread", "sync", "time"] }

[dev-dependencies]
# The build script of librespot-core compiles against this release line only.
vergen = { version = "=9.0.6", default-features = false }
