[package]
name = "projectorctl"
version = "0.1.0"
edition = "2021"
publish = false

[dependencies]
serialport = { version = "4", default-features = false }
structopt = "0.3"
serde = { version = "1", features = ["derive"] }
log = "0.4"
schemars = "0.8"
rocket = { version = "0.5", features = ["json"] }
rocket_okapi = "0.9"
okapi = "0.7"
