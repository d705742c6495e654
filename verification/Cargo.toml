[package]
name = "ombrac"
version = "0.1.0"
edition = "2021"
publish = false

[dependencies]
arc-swap = "=1.9.3"
blake3 = "=1.8.7"
bytes = "=1.12.1"
clap = { version = "=4.6.7", features = ["derive"] }
crossbeam-queue = "=0.3.14"
dashmap = "=6.2.1"
etherparse = "=0.19.0"
futures = "=0.3.34"
hickory-proto = "=0.25.2"
hickory-resolver = "=0.25.2"
http-body-util = "=0.1.5"
hyper = { version = "=1.12.0", features = ["client", "server", "http1"] }
hyper-util = { version = "=0.1.21", features = ["tokio"] }
ipnet = "=2.12.2"
moka = { version = "=0.12.16", features = ["future"] }
rand = "=0.9.5"
ringbuf = "=0.4.8"
s2n-quic = { version = "=1.91.0", features = ["unstable-provider-datagram"] }
serde = { version = "=1.0.229", features = ["derive"] }
serde_json = "=1.0.154"
smoltcp = { version = "=0.12.0", features = ["socket-tcp-cubic"] }
thiserror = "=2.0.21"
tokio = { version = "=1.54.1", features = ["full"] }
tokio-util = { version = "=0.7.20", features = ["codec", "io"] }
tracing = "=0.1.44"
tracing-appender = "=0.2.5"
tracing-subscriber = { version = "=0.3.23", features = ["env-filter"] }
tun-rs = { version = "=2.8.16", features = ["async", "async_framed"] }
