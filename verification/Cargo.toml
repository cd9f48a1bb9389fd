[package]
name = "task_stream"
version = "0.1.0"
edition = "2021"
publish = false

[dependencies]
ach-mpmc = "=0.1.4"
async-task = "=4.7.1"
futures-util = { version = "=0.3.34", default-features = false, features = ["std"] }
