[package]
name = "packet_tracer"
version = "1.0.0"
edition = "2021"
publish = false

[dependencies]
chrono = "*"
clap = "2"
kafka = { version = "*", default-features = false }
pnet = "*"
