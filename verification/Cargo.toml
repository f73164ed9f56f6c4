[package]
name = "t2linux_installer"
version = "0.1.0"
edition = "2021"
publish = false

[dependencies]
anyhow = "*"
blockdev = "*"
futures = "*"
humansize = "*"
plist = "*"
reqwest = { version = "*", default-features = false, features = ["blocking", "stream"] }
sendfd = "*"
serde = { version = "*", features = ["derive"] }
serde_json = "*"
sha2 = "*"
thiserror = "*"
tokio = { version = "*", features = ["rt-multi-thread", "macros"] }
tokio-util = "*"
uuid = { version = "*", features = ["serde"] }
zip = { version = "*", default-features = false, features = ["deflate"] }
