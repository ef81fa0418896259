[package]
name = "laye"
version = "0.1.0"
edition = "2021"
publish = false

[dependencies]
actix-web = { version = "4", default-features = false }
futures-util = { version = "0.3", default-features = false }
http = "1"
tower = "0.5"
thiserror = "2"
