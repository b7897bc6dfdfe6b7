[package]
name = "podlet"
version = "0.1.0"
edition = "2021"
publish = false

[dependencies]
clap = { version = "*", features = ["derive"] }
docker-compose-types = "*"
url = "*"

[dev-dependencies]
indexmap = "*"
