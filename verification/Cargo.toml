[package]
name = "slint-ohos"
version = "0.1.0"
edition = "2021"
publish = false

[dependencies]
slint = { version = "=1.4.1", default-features = false, features = ["std", "compat-1-2", "renderer-software"] }
i-slint-core = "=1.4.1"
calloop = "0.13"
once_cell = "1"
libc = "0.2"
raw-window-handle = "0.6"
glutin = { version = "0.32", default-features = false, features = ["egl"] }
napi = { version = "2", default-features = false, features = ["napi4", "async"] }
napi-derive = "2"
