[package]
name = "currycompose"
version = "0.1.0"
edition = "2021"
publish = false

[dependencies]
tupleops = "=0.1.1"
tuple_split = "=0.1.1"
