[package]
name = "dynamic_lambda"
version = "0.1.0"
edition = "2021"
publish = false

[dependencies]
allocative = "=0.3.4"
anyhow = "=1.0.104"
derivative = "=2.2.0"
derive_more = { version = "=2.1.1", features = ["display"] }
display_container = "=0.9.0"
dupe = "=0.9.1"
either = "=1.19.0"
gazebo = "=0.8.1"
indexmap = "=2.14.2"
starlark = "=0.13.0"
