[package]
name = "generic_mailer"
version = "0.1.0"
edition = "2021"
publish = false

[dependencies]
async-trait = "0.1"
aws-sdk-sesv2 = { version = "1", default-features = false }
base64 = "0.22"
reqwest = { version = "0.12", default-features = false, features = ["json"] }
serde_json = "1"
