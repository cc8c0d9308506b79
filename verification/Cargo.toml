[package]
name = "login_harness"
version = "0.1.0"
edition = "2021"
publish = false

[dependencies]
thirtyfour = "*"
tokio = { version = "*", features = ["rt-multi-thread", "macros", "time"] }
