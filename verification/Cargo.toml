[package]
name = "hd_cli"
version = "0.1.0"
edition = "2021"
publish = false

[dependencies]
astro = "*"
clap = { version = "*", features = ["derive"] }
colored = "*"
comfy-table = "*"
directories = "*"
serde = { version = "*", features = ["derive"] }
serde_json = "*"
serde_yaml = "*"
terminal_size = "*"
textwrap = "*"
