[package]
name = "metrix"
version = "0.11.0"
edition = "2021"
publish = false

[dependencies]
crossbeam-channel = "=0.5.17"
exponential-decay-histogram = "=0.1.16"
futures = "=0.1.31"
jemalloc-ctl = "*"
json = "=0.12.4"
log = "=0.4.35"
