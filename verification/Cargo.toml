[package]
name = "command_executor"
version = "0.1.0"
edition = "2021"
publish = false

[dependencies]
libafl_bolts = { version = "0.14", default-features = false, features = ["std"] }
wait-timeout = "0.2"
