[package]
name = "jukebox"
version = "0.1.0"
edition = "2021"
publish = false

[dependencies]
eyre = "0.6"
humantime = "2"
log = "0.4"
poise = "0.6"
rand = "0.9"
regex = "1"
reqwest = { version = "0.12", default-features = false }
serde = { version = "1", features = ["derive"] }
simplelog = "0.12"
songbird = { version = "0.5", features = ["builtin-queue"] }
tokio = { version = "1", features = ["macros", "rt-multi-thread", "fs", "io-util", "sync"] }
toml = "0.8"
