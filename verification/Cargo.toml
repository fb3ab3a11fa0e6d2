[package]
name = "skip-icloud-sync"
version = "0.1.0"
edition = "2021"
publish = false

[dependencies]
clap = "4"
color-eyre = "0.6"
colored = "2"
dirs = "5"
inquire = "0.7"
