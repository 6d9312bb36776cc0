[package]
name = "movie_bot"
version = "0.1.0"
edition = "2021"
publish = false

[dependencies]
scraper = { version = "=0.25.0", default-features = false }
regex = "=1.13.1"
serde_urlencoded = "=0.7.1"
urlencoding = "=2.1.3"
serde_json = "=1.0.154"
serde = { version = "=1.0.229", features = ["derive"] }
reqwest = { version = "=0.12.28", default-features = false, features = ["json", "rustls-tls"] }
tokio = { version = "=1.54.1", features = ["macros", "rt-multi-thread", "signal", "sync", "time"] }
serenity = { version = "=0.12.5", default-features = false, features = ["builder", "cache", "client", "framework", "gateway", "http", "model", "utils", "rustls_backend", "collector", "voice"] }
songbird = "=0.5.0"
poise = { version = "=0.6.2", default-features = false, features = ["cache"] }
thirtyfour = { version = "=0.36.1", default-features = false, features = ["reqwest", "rustls-tls"] }
image = { version = "=0.25.10", default-features = false, features = ["png"] }
dotenv = "=0.15.0"
lazy_static = "=1.5.1"
once_cell = "=1.21.4"
