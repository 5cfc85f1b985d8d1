[package]
name = "barracuda"
version = "0.1.0"
edition = "2021"
publish = false

[dependencies]
endiannezz = "=0.6.5"
clap = { version = "=3.2.25", features = ["derive"] }
exitcode = "=1.1.2"
