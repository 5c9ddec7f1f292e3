[package]
name = "charts"
version = "0.1.0"
edition = "2021"
publish = false

[dependencies]
chrono = { version = "=0.4.45", default-features = false, features = ["alloc"] }
serde = { version = "=1.0.229", features = ["derive"] }
serde_json = "=1.0.154"
tokio = { version = "=1.54.1", features = ["rt", "rt-multi-thread", "time", "macros", "sync"] }
tokio-tungstenite = { version = "=0.30.0", features = ["rustls-tls-webpki-roots"] }
futures-util = "=0.3.34"
bytemuck = { version = "=1.25.2", features = ["derive"] }
image = { version = "*", default-features = false, features = ["png"] }
reqwest = { version = "*", default-features = false, features = ["json", "rustls-tls"] }
