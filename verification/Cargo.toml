[package]
name = "synapse_ppm_bridge"
version = "0.1.0"
edition = "2021"
publish = false

[dependencies]
clap = { version = "=4.6.7", features = ["derive", "env"] }
serialport = { version = "=4.10.1", default-features = false }
synapse_fbs = "=0.8.0"
thiserror = "=2.0.21"
zenoh = { version = "=1.10.2", default-features = false, features = ["transport_udp", "transport_tcp"] }
