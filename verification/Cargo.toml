[package]
name = "miv"
version = "0.0.1"
edition = "2021"
publish = false

[dependencies]
chrono = "0.4"
clap = { version = "4", features = ["derive"] }
once_cell = "1"
term_size = "0.3"
termios = "0.3"
