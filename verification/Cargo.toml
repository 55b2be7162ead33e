[package]
name = "modem_manager_rs"
version = "0.4.2"
edition = "2021"
publish = false

[dependencies]
atat = { version = "=0.25.0", features = ["derive", "bytes"] }
time = { version = "=0.3.55", default-features = false, features = ["parsing", "alloc"] }
chrono = { version = "=0.4.45", default-features = false }
embedded-hal = "=1.0.0"
embedded-io = "=0.7.1"
embedded-io-async = "=0.7.0"
embassy-time = { version = "=0.5.1", features = ["std"] }
embassy-sync = "=0.8.0"
embassy-futures = "=0.1.2"
embassy-net = { version = "=0.9.1", features = ["proto-ipv4", "medium-ip", "tcp", "udp", "dns"] }
embassy-net-ppp = "=0.3.0"
heapless = "=0.9.3"
log = "=0.4.35"
static_cell = "=2.1.1"
nb = "=1.1.0"
embedded-nal = "=0.9.0"
embedded-nal-async = "=0.9.0"
thiserror = "=1.0.69"
