[package]
name = "ratatheme"
version = "0.1.0"
edition = "2021"
publish = false

[dependencies]
csscolorparser = "0.7"
proc-macro2 = "1"
quote = "1"
ratatui = { version = "0.29", default-features = false }
serde = { version = "1", features = ["derive"] }
syn = { version = "2", features = ["full", "extra-traits"] }
toml = "0.8"
