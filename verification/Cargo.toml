[package]
name = "rpi_home"
version = "0.1.0"
edition = "2021"
publish = false

[dependencies]
base64 = "0.21"
byteorder = "1"
hyper = { version = "0.14", features = ["server", "http1", "tcp", "runtime"] }
log = "0.4"
log4rs = "1"
rascam = "*"
rppal = "*"
serde = { version = "1", features = ["derive"] }
serde_json = { version = "1", features = ["preserve_order"] }
thiserror = "1"
tokio = { version = "1", features = ["macros", "rt-multi-thread"] }
