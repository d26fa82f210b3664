[package]
name = "port_reconciler"
version = "0.1.0"
edition = "2021"
publish = false

[dependencies]
anyhow = "*"
backon = "*"
fern = "*"
futures = "*"
log = "*"
natpmp = "*"
serde = { version = "*", features = ["derive"] }
serde_json = "*"
time = { version = "*", features = ["formatting", "local-offset"] }
tokio = { version = "*", features = ["macros", "rt", "time", "signal"] }
transmission-rpc = "*"
