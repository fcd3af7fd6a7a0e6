[package]
name = "actix_prerender"
version = "0.1.0"
edition = "2021"
publish = false

[dependencies]
url = "2"
reqwest = { version = "0.11", default-features = false, features = ["gzip"] }
actix-web = { version = "4", default-features = false }
actix-service = "2"
actix-utils = "3"
futures-util = { version = "0.3", default-features = false, features = ["alloc"] }
