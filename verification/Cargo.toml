[package]
name = "ahecha_macro"
version = "0.1.0"
edition = "2021"
publish = false

[dependencies]
anyhow = "1"
convert_case = "0.4"
inflection = "0.1"
proc-macro2 = "1"
quote = "1"
serde = { version = "1", features = ["derive"] }
serde_json = "1"
syn = { version = "1", features = ["full", "extra-traits"] }
