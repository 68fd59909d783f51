[package]
name = "condition_json"
version = "0.1.0"
edition = "2021"
publish = false

[dependencies]
jni = "0.21"
search-query-parser = "*"
serde_json = "1"
