[package]
name = "ai_bindgen"
version = "0.1.0"
edition = "2021"
publish = false

[dependencies]
proc-macro2 = "1"
syn = { version = "2", features = ["full"] }
quote = "1"
openai_api_rust = "*"
