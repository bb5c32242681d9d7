[package]
name = "zenyx"
version = "0.1.0"
edition = "2021"

[dependencies]
anyhow = "1"
chrono = "0.4"
colored = "2"
dirs-next = "2"
lazy_static = "1"
parking_lot = "0.12"
rustyline = "14"
