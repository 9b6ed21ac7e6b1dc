[package]
name = "aider_script"
version = "0.1.0"
edition = "2021"
publish = false

[dependencies]
tera = "1"
yaml-rust2 = "*"
convert_case = "*"
anyhow = "1"
clap = { version = "4", features = ["derive"] }
clio = { version = "*", features = ["clap-parse"] }
