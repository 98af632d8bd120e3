[package]
name = "evalexpr_rhai"
version = "0.1.0"
edition = "2021"
publish = false

[dependencies]
rhai = { version = "*", features = ["serde"] }
rhai-fs = "*"
rhai-rand = "*"
rhai-sci = "*"
rhai-url = "*"
serde_json = "*"
