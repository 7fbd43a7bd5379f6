[package]
name = "oxutrm"
version = "0.1.0"
edition = "2021"
publish = false

[dependencies]
alacritty_terminal = "*"
anyhow = "1"
quinn = { version = "*", default-features = false, features = ["runtime-tokio"] }
rustix = { version = "*", features = ["event", "fs", "process", "pty", "stdio", "termios", "time"] }
rustix-openpty = "*"
thiserror = "*"
tokio = { version = "1", features = ["fs", "io-std", "io-util", "macros", "net", "process", "rt-multi-thread", "sync", "time"] }
