[package]
name = "recordatorio"
version = "0.1.0"
edition = "2021"
publish = false

[dependencies]
chrono = "0.4"
regex = "1"
uuid = { version = "1", features = ["v4"] }
serde = { version = "1", features = ["derive"] }
rusqlite = { version = "0.32", features = ["bundled"] }
tiberius = { version = "0.12", default-features = false, features = ["tds73", "rustls"] }
tokio = { version = "1", features = ["net", "rt", "time"] }
tokio-util = { version = "0.7", features = ["compat"] }
hound = "3"
reqwest = { version = "0.12", default-features = false, features = ["blocking", "rustls-tls"] }
whisper-rs = "0.15"
