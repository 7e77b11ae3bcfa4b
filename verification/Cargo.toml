[package]
name = "publication"
version = "0.1.0"
edition = "2021"
publish = false

[dependencies]
futures = "0.3"
zenoh-core = "0.6.0-beta.1"
zenoh-protocol = "0.6.0-beta.1"
zenoh-protocol-core = "0.6.0-beta.1"
