[package]
name = "standalone_wbnb_handler_bench"
version = "0.1.0"
edition = "2021"
publish = false

[dependencies]
revm-primitives = "*"
revm-bytecode = "*"
revm-state = "*"
revm-database = "*"
revm-context = "*"
revm-handler = "*"
eyre = "*"
