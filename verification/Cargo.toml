[package]
name = "tandem_chess"
version = "0.1.0"
edition = "2021"
publish = false

[dependencies]
chess = "=3.2.0"
chrono = "=0.4.45"
tungstenite = "=0.30.0"
tokio = { version = "=1.53.2", features = ["macros", "rt-multi-thread", "net"] }
axum = "=0.8.9"

[dev-dependencies]
serde_json = "=1.0.151"
