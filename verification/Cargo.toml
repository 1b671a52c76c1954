[package]
name = "gradio_macro"
version = "0.1.0"
edition = "2021"
publish = false

[dependencies]
anyhow = "=1.0.104"
gradio = "=0.3.2"
heck = "=0.5.0"
proc-macro2 = "=1.0.107"
quote = "=1.0.47"
serde = "=1.0.229"
serde_json = "=1.0.154"
syn = { version = "=2.0.119", features = ["full"] }
tokio = { version = "=1.54.1", features = ["fs", "macros", "rt-multi-thread"] }

[dev-dependencies]
regex = "=1.13.1"
