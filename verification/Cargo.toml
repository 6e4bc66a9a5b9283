[package]
name = "azdls_writer"
version = "0.1.0"
edition = "2021"
publish = false

[dependencies]
async-trait = "0.1"
http = "0.2"
