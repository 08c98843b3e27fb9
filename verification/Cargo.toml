[package]
name = "range_bridge"
version = "0.1.0"
edition = "2021"
publish = false

[dependencies]
anyhow = "=1.0.104"
btleplug = "=0.11.5"
buttplug = { version = "=7.1.16", default-features = false, features = ["client", "serialize-json", "websockets", "tokio-runtime"] }
clap = { version = "=4.6.7", default-features = false, features = ["std", "derive", "help", "usage", "error-context"] }
ctrlc = "=3.5.2"
futures = { version = "=0.3.34", default-features = false, features = ["std"] }
serde = { version = "=1.0.229", features = ["derive"] }
tokio = { version = "=1.54.1", default-features = false, features = ["macros", "rt-multi-thread", "sync", "time"] }
toml = "=0.8.23"
tracing = "=0.1.44"
tracing-subscriber = { version = "=0.3.23", default-features = false, features = ["env-filter", "fmt"] }
uuid = "=1.29.0"
