[package]
name = "manycore_svg"
version = "0.1.0"
edition = "2021"
publish = false

[dependencies]
const_format = "0.2.37"
getset = "0.1.7"
quick-xml = { version = "=0.31.0", features = ["serialize"] }
serde = { version = "1.0.229", features = ["derive"] }

[dev-dependencies]
serde_json = "1.0.154"
