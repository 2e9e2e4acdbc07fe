[package]
name = "spt"
version = "0.5.0"
edition = "2021"
publish = false

[dependencies]
anyhow = "1"
clap = "4"
log = "0.4"
log4rs = "1"
quick-xml = "0.31"
serde = { version = "1", features = ["derive"] }
serde_json = "1"
serde_yaml = "0.9"
thirtyfour = "0.31"
tokio = { version = "1", features = ["macros", "rt-multi-thread"] }

[dev-dependencies]
fake = "2"
