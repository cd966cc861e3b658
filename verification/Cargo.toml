[package]
name = "budgetman_auth"
version = "0.1.0"
edition = "2021"
publish = false

[dependencies]
argon2 = "=0.6.0"
jwt-simple = { version = "=0.15.0", default-features = false, features = ["pure-rust"] }
uuid = { version = "=1.27.0", features = ["v4"] }
