[package]
name = "luckperms_rs"
version = "0.1.0"
edition = "2021"
publish = false

[dependencies]
serde_json = "*"
form_urlencoded = "*"
url = "*"
uuid = "*"
reqwest = { version = "*", default-features = false, features = ["json"] }
tokio = { version = "*", default-features = false, features = ["rt", "macros"] }
