[package]
name = "perspective"
version = "0.1.0"
edition = "2021"
publish = false

[dependencies]
tokio-util = { version = "=0.7.20", features = ["codec"] }
bitarray = { version = "=0.10.0", features = ["space"] }
space = "=0.18.0"
serde = { version = "=1.0.229", features = ["derive"] }
serde_json = "=1.0.154"
anyhow = "=1.0.104"
nalgebra = "=0.35.0"
num-traits = "=0.2.19"
tokio = { version = "=1.54.1", features = ["fs", "io-util", "rt"] }
tracing = "=0.1.44"
tracing-subscriber = { version = "=0.3.23", features = ["env-filter"] }
clap = { version = "=4.6.7", features = ["derive"] }
optimization = "=0.2.0"
image = { version = "=0.25.10", default-features = false, features = ["png", "jpeg"] }
cv = { version = "=0.6.0", default-features = false }
lambda-twist = "=0.7.0"
