[package]
name = "monzilla_rs"
version = "0.1.0"
edition = "2021"
publish = false

[dependencies]
clap = { version = "4", features = ["derive", "env"] }
command-group = "2"
crossbeam = "0.8"
easy-error = "1"
glob = "0.3"
notify = "5"
notify-debouncer-mini = "0.2"
termios = "0.3"
yansi = "0.5"
