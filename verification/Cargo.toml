[package]
name = "langid"
version = "0.1.0"
edition = "2021"
publish = false

[dependencies]
fasttext = "=0.7.8"
warc = "=0.4.0"
