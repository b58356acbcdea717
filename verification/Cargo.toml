[package]
name = "waystt-wrapper"
version = "0.1.0"
edition = "2021"
publish = false

[dependencies]
clap = { version = "4", features = ["derive"] }
gtk4 = "*"
gtk4-layer-shell = "*"
nix = { version = "*", features = ["signal"] }
thiserror = "*"
tracing = "0.1"
tracing-subscriber = { version = "0.3", features = ["env-filter"] }
