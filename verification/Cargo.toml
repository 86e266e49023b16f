[package]
name = "authcore"
version = "0.1.0"
edition = "2021"
publish = false

[dependencies]
bcrypt = "=0.19.3"
serde_json = "=1.0.151"
chrono = "=0.4.45"

[dependencies.jsonwebtoken]
version = "=11.1.0"
features = ["rust_crypto"]

[dependencies.uuid]
version = "=1.27.0"
features = ["v4"]
