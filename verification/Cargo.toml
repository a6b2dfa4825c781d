[package]
name = "bench_client"
version = "0.1.0"
edition = "2021"
publish = false

[dependencies]
anyhow = "1"
clap = { version = "4", features = ["derive"] }
mio = { version = "1", features = ["net", "os-poll"] }
quiche = "*"
ring = "0.17"
url = "2"
