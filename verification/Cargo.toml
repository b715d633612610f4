[package]
name = "fswatcher"
version = "0.1.0"
edition = "2021"
publish = false

[dependencies]
notify = "4"
crossbeam-channel = "*"
drop_bomb = "*"
log = "*"
