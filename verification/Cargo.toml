[package]
name = "stremio_shell"
version = "0.1.0"
edition = "2021"
publish = false

[dependencies]
anyhow = "1"
base64 = "0.22"
discord-rich-presence = "1"
flume = "*"
libmpv2 = "*"
libmpv2-sys = "*"
native-windows-derive = "1"
native-windows-gui = "1"
once_cell = "1"
open = "5"
rand = "*"
reqwest = { version = "0.12", default-features = false, features = ["blocking", "json"] }
rust-ini = "0.21"
semver = "1"
serde = { version = "1", features = ["derive"] }
serde_json = "1"
souvlaki = "*"
steamworks = "*"
url = { version = "2", features = ["serde"] }
urlencoding = "2"
uuid = { version = "1", features = ["v4"] }
webview2 = "*"
webview2-sys = "*"
whoami = "1"
winapi = { version = "0.3", features = ["winuser", "wingdi", "windef", "minwindef", "dwmapi", "jobapi2", "winbase", "processthreadsapi", "winnt", "winreg"] }
