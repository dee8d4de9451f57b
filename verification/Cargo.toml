[package]
name = "statime-embassy-net"
version = "0.1.0"
edition = "2021"
publish = false

[dependencies]
statime = { version = "=0.4.0", default-features = false }
embassy-time = { version = "=0.5.1", features = ["tick-hz-1_000_000"] }
embassy-net = { version = "=0.9.1", features = ["udp", "proto-ipv4", "medium-ethernet", "multicast"] }
embassy-futures = "=0.1.2"
smoltcp = { version = "=0.13.1", default-features = false, features = ["packetmeta-id"] }
rand_core = { version = "=0.6.4", default-features = false }
rand_xorshift = "=0.3.0"
log = { version = "=0.4.35", default-features = false }

[dev-dependencies]
embassy-time = { version = "=0.5.1", features = ["mock-driver", "generic-queue-8"] }
critical-section = { version = "=1.2.0", features = ["std"] }
