[package]
name = "android_utilities"
version = "0.1.0"
edition = "2021"
publish = false

[dependencies]
uuid = "1"
jni = "0.21"
java-spaghetti = "*"
futures = "0.3"
futures-channel = "0.3"
futures-core = "0.3"
futures-io = "0.3"
futures-lite = "2"
async-lock = "3"
log = "0.4"
thiserror = "*"
ndk-context = "0.1"
android_log-sys = "*"
android_logger = "*"
ctor = "*"
tokio = { version = "1", features = ["rt-multi-thread"] }
env_logger = "*"
