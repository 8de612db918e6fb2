[package]
name = "riscv_sim"
version = "0.1.0"
edition = "2021"
publish = false

[dependencies]
bytesize = "1"
clap = { version = "4", features = ["derive"] }
clap-num = "1"
colored = "2"
console = "0.15"

[dev-dependencies]
rand = "0.8"
