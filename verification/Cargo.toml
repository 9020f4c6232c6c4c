[package]
name = "dakia"
version = "0.1.0"
edition = "2021"
publish = false

[dependencies]
copypasta = "0.8"
crossterm = "0.25"
jsonxf = "1"
log = "0.4"
log4rs = "1"
reqwest = { version = "0.11", features = ["blocking"] }
tui = "0.19"
