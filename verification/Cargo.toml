[package]
name = "liglicko2"
version = "0.1.0"
edition = "2021"
publish = false

[dependencies]
chrono = { version = "0.4", default-features = false, features = ["std"] }
rustc-hash = "2"
serde = { version = "1", features = ["derive"] }
serde_with = "3"
csv = "1"
thiserror = "1"
clap = { version = "4", features = ["derive"] }
compensated-summation = "*"
ordered-float = "4"
rayon = "1"
uuid = { version = "1", features = ["v7"] }
glicko2 = "*"
