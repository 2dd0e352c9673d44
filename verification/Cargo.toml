[package]
name = "takure"
version = "0.1.0"
edition = "2021"
publish = false

[dependencies]
anyhow = "1"
chrono = "0.4"
confy = "0.6"
crochet = "*"
either = "1"
env_logger = "0.10"
lazy_static = "1"
log = "0.4"
serde = { version = "1", features = ["derive"] }
serde_json = "1"
snafu = "0.8"
ureq = { version = "2", features = ["json"] }
url = "2"
widestring = "1"
winapi = { version = "0.3", features = ["consoleapi", "minwindef", "winnt", "errhandlingapi", "handleapi", "libloaderapi", "processenv", "processthreadsapi", "synchapi", "winerror", "ntdef"] }
