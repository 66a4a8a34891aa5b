[package]
name = "plex_boot"
version = "0.1.0"
edition = "2021"
publish = false

[dependencies]
uefi = { version = "*", features = ["alloc"] }
uefi-raw = "*"
iso9660 = "*"
serde = { version = "*", features = ["derive"] }
toml = "*"
log = "*"
