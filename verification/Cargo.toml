[package]
name = "discord_bot"
version = "0.1.0"
edition = "2021"
publish = false

[dependencies]
ahash = "*"
axum = "*"
axum-extra = { version = "*", features = ["typed-header"] }
chrono = "*"
clap = { version = "*", features = ["derive", "env"] }
dateparser = "*"
deranged = "*"
ecow = "*"
ed25519-compact = "*"
headers = "*"
hex = "*"
iref = "*"
itertools = "*"
jiff = "*"
nonempty = "*"
rart = "*"
readformat = "*"
reqwest = { version = "*", default-features = false, features = ["rustls-tls"] }
rspotify = { version = "*", default-features = false, features = ["client-reqwest", "reqwest-rustls-tls"] }
scraper = "*"
secrecy = "*"
serde = { version = "*", features = ["derive"] }
serde_json = "*"
serde_with = "*"
time = "*"
tokio = { version = "*", features = ["macros", "net", "rt-multi-thread", "sync", "time"] }
twilight-http = "*"
twilight-model = "*"
twilight-util = { version = "*", features = ["builder"] }
uncased = "*"
