[package]
name = "check_distant_linux"
version = "0.1.0"
edition = "2021"
publish = false

[dependencies]
clap = "*"
ssh2 = "*"
