[package]
name = "heph_rt"
version = "0.1.0"
edition = "2021"
publish = false

[dependencies]
heph-inbox = "*"
crossbeam-channel = "*"
mio = { version = "*", features = ["os-poll", "os-ext", "net"] }
num_cpus = "*"
futures-core = "*"
