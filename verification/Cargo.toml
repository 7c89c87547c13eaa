[package]
name = "gemini_gateway"
version = "0.1.0"
edition = "2021"
publish = false

[dependencies]
url = "*"
actix-web = "*"
actix-files = "*"
tokio = { version = "*", features = ["macros", "rt-multi-thread", "net", "io-util"] }
native-tls = "*"
tokio-native-tls = "*"
serde = { version = "*", features = ["derive"] }
tinytemplate = "*"
