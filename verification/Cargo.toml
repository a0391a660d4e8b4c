[package]
name = "netschool"
version = "0.1.0"
edition = "2021"
publish = false

[dependencies]
async_t = "*"
concat_strs = "*"
encoding = "0.2"
md5 = "0.7"
num = { version = "0.4", features = ["serde"] }
reqwest = { version = "0.11", default-features = false, features = ["json", "cookies"] }
serde = { version = "1", features = ["derive"] }
serde_json = { version = "1", features = ["arbitrary_precision"] }
url = "2"
