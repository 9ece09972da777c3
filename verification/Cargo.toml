[package]
name = "elfx86exts"
version = "0.1.0"
edition = "2021"
publish = false

[dependencies]
capstone = "*"
clap = { version = "*", features = ["derive"] }
memmap = "*"
object = "*"
