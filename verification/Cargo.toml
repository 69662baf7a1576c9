[package]
name = "xlsx2csv"
version = "0.1.0"
edition = "2021"
publish = false

[dependencies]
clap = { version = "4", features = ["derive"] }
csv = "1"
ooxml = "*"
regex = "1"
