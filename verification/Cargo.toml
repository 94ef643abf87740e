[package]
name = "yt_dlp_x"
version = "0.1.0"
edition = "2021"
publish = false

[dependencies]
serde_json = "*"
zip = { version = "*", default-features = false, features = ["deflate"] }
tar = "*"
xz2 = "*"
serde = { version = "*", features = ["derive"] }
tokio = { version = "*", features = ["macros", "rt-multi-thread", "process", "io-util", "fs", "sync", "time"] }
reqwest = { version = "*", default-features = false }
which = "*"
directories-next = "*"
