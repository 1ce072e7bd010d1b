[package]
name = "git_ex"
version = "0.1.0"
edition = "2021"
publish = false

[dependencies]
anyhow = "=1.0.104"
chrono = "=0.4.45"
clap = { version = "=4.6.7", features = ["derive"] }
git2 = { version = "0.13", default-features = false }
termion = "=1.5.6"
tui = "=0.9.5"
unicode-width = "=0.1.14"

[dev-dependencies]
tempfile = "=3.27.0"
