[package]
name = "isolate_setup"
version = "0.1.0"
edition = "2021"
publish = false

[dependencies]
futures = "=0.3.34"
libc = "=0.2.191"
tokio = { version = "=1.54.1", features = ["rt", "time"] }
v8 = "=147.4.0"
deno_core_icudata = "=0.77.0"
