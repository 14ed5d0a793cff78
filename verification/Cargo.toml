[package]
name = "async_mailer"
version = "0.1.0"
edition = "2021"
publish = false

[dependencies]
async-trait = "=0.1.92"
base64 = "=0.23.1"
clap = { version = "=4.6.7", features = ["derive"] }
mail-send = "=0.6.2"
reqwest = { version = "=0.13.5", default-features = false, features = ["form"] }
secrecy = "=0.8.0"
serde_json = "=1.0.151"
thiserror = "=2.0.21"
tracing = "=0.1.44"
