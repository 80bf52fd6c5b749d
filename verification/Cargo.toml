[package]
name = "batch_os"
version = "0.1.0"
edition = "2021"
publish = false

[dependencies]
lazy_static = "1"
log = "0.4"
riscv = "0.10"
sbi-rt = { version = "0.0.3", features = ["legacy"] }
