[package]
name = "tropical_pm"
version = "0.2.0"
edition = "2021"
publish = false

[dependencies]
crossterm = "0.29"
fs_extra = "1"
git2 = "0.20"
ratatui = "0.30"
serde = { version = "1", features = ["derive"] }
ureq = { version = "3", features = ["json"] }
walkdir = "2"
