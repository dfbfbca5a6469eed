[package]
name = "actor_rs"
version = "0.1.0"
edition = "2021"
publish = false

[dependencies]
async-broadcast = "=0.7.2"
async-channel = "=2.5.0"
async-executor = "=1.14.1"
async-io = "=2.6.0"
async-process = "=2.5.0"
blocking = "=1.7.0"
event-listener = "=5.4.2"
futures-core = "=0.3.34"
futures-util = { version = "=0.3.34", features = ["io"] }
oneshot = { version = "=0.2.1", features = ["async", "std"] }
pin-project = "=1.1.13"
signal-hook = "=0.4.6"
snafu = "=0.9.2"
static_assertions = "=1.1.0"
tracing = "=0.1.44"
tracing-error = "=0.2.1"

[dev-dependencies]
futures-test = "=0.3.34"
tracing-subscriber = "=0.3.23"
