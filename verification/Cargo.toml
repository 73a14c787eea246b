[package]
name = "loopfs_harness"
version = "0.1.0"
edition = "2021"

[dependencies]
block-utils = "*"
duct = "*"
