[package]
name = "switch_sync"
version = "0.1.0"
edition = "2021"
publish = false

[dependencies]
zenoh = { version = "=0.11.0", default-features = false, features = ["unstable"] }
tokio = { version = "=1.53.2", features = ["rt-multi-thread", "macros", "sync", "time"] }
async-trait = "=0.1.92"
embedded-hal = "=1.0.0"
linux-embedded-hal = "=0.4.1"
