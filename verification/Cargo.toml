[package]
name = "aivchat"
version = "0.1.0"
edition = "2021"
publish = false

[dependencies]
elevenlabs_rs = { version = "=0.7.1", features = ["genai"] }
iced = { version = "=0.14.0", default-features = false, features = ["canvas", "markdown", "sipper", "tiny-skia", "tokio", "x11"] }
openai = "=1.1.1"
serde = { version = "1", features = ["derive"] }
tokio = { version = "1", features = ["fs", "rt", "sync", "time"] }
toml = "1"
tracing = "0.1"
tracing-subscriber = { version = "0.3", default-features = false, features = ["fmt"] }
