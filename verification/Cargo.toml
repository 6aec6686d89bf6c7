[package]
name = "tauri-runtime-servo"
version = "0.1.0"
edition = "2021"
publish = false

[dependencies]
serde_json = "=1.0.154"
url = "=2.5.8"
http = "=1.5.0"
log = "=0.4.35"
raw-window-handle = "=0.6.2"
euclid = "=0.22.14"
tao = "=0.35.3"
tauri-runtime = "=2.11.3"
tauri-utils = "2"
