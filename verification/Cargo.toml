[package]
name = "udp-wiremock"
version = "0.1.0"
edition = "2021"
publish = false

[dependencies]
async-drop = "*"
log = "0.4"
postcard = { version = "1", features = ["alloc"] }
serde = { version = "1", features = ["derive"] }
thiserror = "*"
tokio = { version = "1", features = ["macros", "net", "rt", "rt-multi-thread", "sync", "time"] }

[dev-dependencies]
postcard = { version = "1", features = ["alloc"] }
