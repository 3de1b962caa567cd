[package]
name = "smash_shell"
version = "0.1.0"
edition = "2021"
publish = false

[dependencies]
ratatui = "*"
crossterm = "*"
tachyonfx = "*"
material-color-utilities = "1.0.0-dev.18"
syntect = { version = "*", default-features = false, features = ["default-fancy"] }
linguist = "*"
linguist-types = "*"
unicode-width = "*"
arboard = "*"
portable-pty = "*"
tui-term = "*"
throbber-widgets-tui = "*"
tui-scrollview = "*"
anyhow = "*"
clap = { version = "*", features = ["derive"] }
tokio = { version = "*", features = ["rt-multi-thread", "macros", "time"] }
