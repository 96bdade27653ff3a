[package]
name = "configure"
version = "0.1.0"
edition = "2021"
publish = false

[dependencies]
chrono = "0.4"
console = "0.15"
indicatif = "0.15"
log = "0.4"
serde = { version = "1", features = ["derive"] }
serde_json = "1"
simplelog = "0.8"
structopt = "0.3"
structopt-flags = "0.3"
thiserror = "1"
