[package]
name = "blog_core"
version = "0.1.0"
edition = "2021"
publish = false

[dependencies]
argon2 = "=0.5.3"
rand_core = { version = "=0.6.4", features = ["getrandom"] }
uuid = { version = "=1.27.0", features = ["v4"] }
