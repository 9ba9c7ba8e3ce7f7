[package]
name = "hagstrom_core"
version = "0.1.0"
edition = "2021"
publish = false

[dependencies]
ctrlc = "3"
lazy_static = "1"
serialport = { version = "4", default-features = false }
thiserror = "1"
