[package]
name = "chipset_devices"
version = "0.1.0"
edition = "2021"
publish = false

[dependencies]
anyhow = "1"
clap = { version = "4", features = ["derive"] }
fs-err = "*"
futures = "0.3"
log = "0.4"
pathdiff = "*"
thiserror = "1"
toml_edit = "*"
tracing = "0.1"
zerocopy = "0.7"
