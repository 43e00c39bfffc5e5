[package]
name = "des"
version = "0.1.0"
edition = "2021"
publish = false

[dependencies]
ratatui = "*"
crossterm = "*"
ssh2 = "*"
dotenv = "0.15"
indicatif = "0.17"
zip = { version = "2", default-features = false, features = ["deflate"] }
