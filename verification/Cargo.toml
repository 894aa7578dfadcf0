[package]
name = "network_analyzer"
version = "0.1.0"
edition = "2021"
publish = false

[dependencies]
etherparse = "0.13"
chrono = "0.4"
prettytable-rs = "0.10"
pcap = "*"
threadpool = "*"
num_cpus = "*"
clearscreen = "*"
clap = { version = "*", features = ["derive"] }
