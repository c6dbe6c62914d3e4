[package]
name = "rpc_perf"
version = "0.1.0"
edition = "2021"
publish = false

[dependencies]
histogram = "*"
getopts = "*"
log = "*"
mio = { version = "*", features = ["net", "os-poll"] }
