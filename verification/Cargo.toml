[package]
name = "nu_zenoh"
version = "0.1.0"
edition = "2021"
publish = false

[dependencies]
flume = "*"
zenoh-codec = "*"
zenoh-protocol = "*"
