[package]
name = "tg_exporter"
version = "0.1.0"
edition = "2021"
publish = false

[dependencies]
dotenvy = "=0.15.7"
envy = "=0.4.2"
eyre = "=0.6.14"
grammers-client = "=0.6.0"
grammers-session = "0.5"
mime = "=0.3.17"
mime_guess = "=2.0.5"
rpassword = "=7.5.4"
secrecy = { version = "=0.8.0", features = ["serde"] }
serde = { version = "1", features = ["derive"] }
tokio = { version = "1", features = ["fs", "io-util", "macros", "rt-multi-thread", "time"] }
tracing = "=0.1.44"
tracing-subscriber = { version = "=0.3.23", features = ["env-filter"] }
tracing-tree = "=0.4.1"
