[package]
name = "ugc_scraper"
version = "0.1.0"
edition = "2021"
publish = false

[dependencies]
scraper = "=0.29.0"
time = { version = "=0.3.55", features = ["parsing", "formatting"] }
steamid-ng = "=3.0.0"
reqwest = { version = "=0.13.5", default-features = false, features = ["json"] }
tokio = { version = "=1.54.1", features = ["macros", "rt-multi-thread", "time", "signal", "net"] }
serde = { version = "=1.0.229", features = ["derive"] }
serde_json = "=1.0.154"
thiserror = "=2.0.21"
tracing = "=0.1.44"
tracing-subscriber = "=0.3.23"
axum = "=0.8.9"
clap = { version = "=4.6.7", features = ["derive"] }
toml = "=1.1.8"
main_error = "=0.1.2"
secretfile = "=0.1.1"
futures-util = "=0.3.34"
tokio-stream = "=0.1.19"
sqlx = { version = "=0.9.0", default-features = false, features = ["postgres", "runtime-tokio", "time"] }
