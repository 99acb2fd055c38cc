[package]
name = "blucher"
version = "0.1.0"
edition = "2021"
publish = false

[dependencies]
bincode = { version = "=2.0.1", default-features = false, features = ["derive"] }
cyw43 = "=0.1.0"
cyw43-pio = "=0.1.0"
defmt = "=0.3.101"
defmt-rtt = "=0.4.2"
embassy-executor = { version = "=0.5.1", features = ["arch-std", "executor-thread", "integrated-timers"] }
embassy-futures = "=0.1.2"
embassy-net = { version = "=0.4.0", features = ["tcp", "proto-ipv4", "medium-ethernet"] }
embassy-rp = "=0.1.0"
embassy-sync = { version = "=0.5.0", features = ["std"] }
embassy-time = { version = "=0.3.2", features = ["std"] }
fixed = "=1.31.0"
half = "=2.7.1"
heapless = "=0.8.0"
panic-probe = "=0.3.2"
static_cell = "=2.1.1"
