[package]
name = "infiltrator"
version = "0.1.0"
edition = "2021"
publish = false

[dependencies]
flate2 = "=1.1.10"
reqwest = { version = "=0.12.28", default-features = false, features = ["rustls-tls"] }
sys-locale = "=0.3.2"
is_elevated = "=0.1.2"
serde_json = "=1.0.154"
serde_yml = "=0.0.13"
anyhow = "=1.0.104"
tokio = { version = "=1.54.1", features = ["rt-multi-thread", "macros", "time", "fs"] }
iced = { version = "=0.14.0", default-features = false, features = ["tiny-skia", "tokio", "canvas"] }
tray-icon = { version = "=0.26.1", default-features = false }
muda = { version = "=0.21.2", default-features = false }
image = { version = "=0.25.10", default-features = false, features = ["png", "ico"] }
single-instance = "=0.3.3"
