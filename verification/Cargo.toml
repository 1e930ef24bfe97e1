[package]
name = "tafd"
version = "0.1.0"
edition = "2021"
publish = false

[dependencies]
crossbeam = "0.8"
cpal = "0.15"
hound = "3.5"
directories = "5.0"
log = "0.4"
env_logger = "0.11"
libc = "0.2"
clap = { version = "4", features = ["derive"] }
ctrlc = "3"
serde = { version = "1", features = ["derive"] }
thiserror = "1"
toml = "0.8"
windows = { version = "0.52", features = ["Win32_Foundation", "Win32_UI_WindowsAndMessaging", "Win32_System_LibraryLoader", "Win32_System_Threading"] }
