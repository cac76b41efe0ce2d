[package]
name = "watering_system"
version = "0.1.0"
edition = "2021"
publish = false

[dependencies]
heapless = "=0.8.0"
esp-hal-mdns = "=0.1.6"
embassy-sync = "=0.8.0"
embassy-time = "=0.4.0"
embassy-executor = "=0.7.0"
embassy-net = { version = "=0.7.1", features = ["proto-ipv4", "medium-ethernet", "udp", "tcp", "dhcpv4", "multicast"] }
embedded-nal-async = "=0.8.0"
rust-mqtt = { version = "=0.3.1", default-features = false }
static_cell = "=2.1.1"
log = "=0.4.34"
# The mutex of the mailbox channel needs a critical-section implementation
# to link against; on a hosted target the `std` feature supplies it.
critical-section = { version = "=1.2.0", features = ["std"] }
