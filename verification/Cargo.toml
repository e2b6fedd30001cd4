[package]
name = "steam_machine_id"
version = "0.1.0"
edition = "2021"
publish = false

[dependencies]
bytes = "1"
rand = "0.8"
sha1_smol = "1"
