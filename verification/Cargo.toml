[package]
name = "blksweep"
version = "0.1.0"
edition = "2021"
publish = false

[dependencies]
byte-unit = "*"
chrono = "*"
names = { version = "*", default-features = false }
anyhow = "*"
clap = { version = "*", features = ["derive"] }
figment = { version = "*", features = ["toml"] }
serde = { version = "*", features = ["derive"] }
url = "*"
reqwest = { version = "*", default-features = false, features = ["blocking"] }
log = "*"
log4rs = "*"
indicatif = "*"
libflate = "*"
tar = "*"
walkdir = "*"
glob = "*"
