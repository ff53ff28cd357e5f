[package]
name = "browser-test"
version = "0.1.0"
edition = "2021"
publish = false

[dependencies]
async-trait = "0.1"
chrome-for-testing-manager = "0.10"
futures-util = "0.3"
rootcause = "0.12"
thirtyfour = "0.37"
thiserror = "2"
tokio = { version = "1", default-features = false, features = ["io-util", "io-std", "rt-multi-thread", "macros"] }
tracing = "0.1"
typed-builder = "0.21"
