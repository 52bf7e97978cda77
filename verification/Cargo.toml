[package]
name = "art_telephone"
version = "0.1.0"
edition = "2021"
publish = false

[dependencies]
log = "0.4"
serenity = "0.8"
simple_logger = "1"
