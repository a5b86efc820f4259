[package]
name = "tio"
version = "0.1.0"
edition = "2021"
publish = false

[dependencies]
async-task = "1.3"
crossbeam-channel = "0.4"
crossbeam-deque = "0.7"
crossbeam-queue = "0.2"
crossbeam-utils = "0.7"
futures = "0.3"
futures-timer = "3"
log = "0.4"
mio = { version = "0.7", features = ["os-poll", "tcp", "udp", "uds"] }
num_cpus = "1"
once_cell = "1"
slab = "0.4"
