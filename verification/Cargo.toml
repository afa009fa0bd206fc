[package]
name = "video_dl"
version = "0.3.0"
edition = "2021"
publish = false

[dependencies]
url = "*"
regex = "*"
serde_json = "*"
base64 = "*"
sanitize-filename = "*"
serde = { version = "*", features = ["derive"] }
toml = "*"
clap = { version = "*", features = ["derive"] }
tokio = { version = "*", features = ["full"] }
reqwest = { version = "*", default-features = false, features = ["json", "stream", "cookies"] }
futures-util = "*"
indicatif = "*"
uuid = { version = "*", features = ["v4"] }
dirs = "*"
