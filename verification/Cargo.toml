[package]
name = "executor_bootstrap"
version = "0.1.0"
edition = "2021"
publish = false

[dependencies]
async-executor = "*"
async-io = "*"
event-listener = "*"
