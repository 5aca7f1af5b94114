[package]
name = "type_signatures"
version = "0.1.0"
edition = "2021"
publish = false

[dependencies]
syn = { version = "*", features = ["full"] }
proc-macro2 = { version = "*", features = ["span-locations"] }
