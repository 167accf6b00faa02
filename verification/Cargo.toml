[package]
name = "ggmod"
version = "0.1.0"
edition = "2021"
publish = false

[dependencies]
anyhow = "1"
clap = { version = "4", features = ["derive"] }
compress-tools = "0.15"
dircpy = "0.3"
directories = "5"
image = { version = "0.25", default-features = false, features = ["png", "jpeg"] }
indexmap = "2"
log = "0.4"
ratatui = "0.29"
ratatui-image = { version = "4", default-features = false }
regex = "1"
reqwest = { version = "0.12", features = ["blocking"] }
serde = { version = "1", features = ["derive"] }
serde_json = "1"
simple-logging = "2"
throbber-widgets-tui = "0.8"
tokio = { version = "1", features = ["rt-multi-thread", "macros", "sync"] }
unrar = "0.5"
