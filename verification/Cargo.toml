[package]
name = "bardcast"
version = "0.2.0"
edition = "2021"
publish = false

[dependencies]
async-ringbuf = "0.1"
async-trait = "0.1"
byteorder = "1"
clap = { version = "4", features = ["derive"] }
configparser = "3"
dashmap = "5"
futures = "0.3"
libpulse-binding = "2"
log = "0.4"
regex = "1"
ringbuf = "0.3"
serenity = "0.11"
simple_logger = "4"
songbird = "0.3"
stream-flatten-iters = "*"
time = { version = "0.3", features = ["local-offset"] }
tokio = { version = "1", features = ["full"] }
wave_stream = "*"
