[package]
name = "tokiotest_httpserver"
version = "0.2.1"
edition = "2021"
publish = false

[dependencies]
queues = "1.1"
hyper = { version = "0.14", features = ["server", "client", "http1", "tcp"] }
tokio = { version = "1", features = ["rt-multi-thread", "macros", "sync", "net", "time"] }
futures = "0.3"
lazy_static = "1.4"
async-trait = "0.1"
test-context = "0.1"
