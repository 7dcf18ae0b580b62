[package]
name = "rbtc"
version = "0.4.0"
edition = "2021"
publish = false

[dependencies]
byteorder = "1"
sha2 = "0.8"
hex = "0.4"
chrono = "0.4"
rand = "0.8"
dns-lookup = "1"
rusqlite = { version = "0.31", features = ["bundled"] }
rustyline = "14"
log = "0.4"
