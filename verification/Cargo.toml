[package]
name = "trin_db"
version = "0.1.0"
edition = "2021"
publish = false

[dependencies]
hex = "*"
directories = "*"
rocksdb = "*"
discv5 = "*"
tempdir = "*"
