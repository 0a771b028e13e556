[package]
name = "huginn"
version = "0.1.0"
edition = "2021"
publish = false

[dependencies]
regex = "*"
indicatif = "*"
colored = "*"
clap = { version = "*", features = ["derive", "env"] }
atty = "*"
log = "*"
fern = "*"
chrono = "*"
config = { version = "*", default-features = false, features = ["json"] }
serde = { version = "*", features = ["derive"] }
serde_json = "*"
