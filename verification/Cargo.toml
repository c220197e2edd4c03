[package]
name = "sql_builder"
version = "0.1.0"
edition = "2021"
publish = false

[dependencies]
async-trait = "=0.1.92"
quote = "=1.0.47"
syn = "=3.0.9"
