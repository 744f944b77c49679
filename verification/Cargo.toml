[package]
name = "oapi-codegen"
version = "0.1.0"
edition = "2021"
publish = false

[dependencies]
serde = { version = "1", features = ["derive"] }
serde_yaml = "0.9"
openapiv3 = "2"
indexmap = "2"
clap = { version = "4", features = ["derive"] }
anstream = "*"
owo-colors = "*"
regex = "1"
