[package]
name = "vueko"
version = "0.1.0"
edition = "2021"
publish = false

[dependencies]
Nuclide = "*"
clap = { version = "*", features = ["derive"] }
derive_more = { version = "*", features = ["display"] }
thiserror = "*"
