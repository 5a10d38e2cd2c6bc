[package]
name = "horizon"
version = "0.1.0"
edition = "2021"
publish = false

[dependencies]
uuid = { version = "=1.29.1", features = ["v4"] }
rand = "=0.8.8"
serde = { version = "=1.0.229", features = ["derive"] }
serde_json = "=1.0.154"
csv = "=1.4.0"
tokio = { version = "=1.54.1", features = ["rt-multi-thread", "macros", "time", "sync", "net"] }
nalgebra = "=0.33.3"
rstar = "=0.12.2"
spade = "=2.15.1"
anyhow = "=1.0.104"
rayon = "=1.12.0"
parking_lot = "=0.12.5"
once_cell = "=1.21.4"
lazy_static = "=1.5.1"
ctrlc = "=3.5.2"
axum = "0.7"
socketioxide = "0.14"
futures = "0.3"
