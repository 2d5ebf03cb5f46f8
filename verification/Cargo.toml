[package]
name = "window"
version = "0.1.0"
edition = "2021"
publish = false

[dependencies]
anyhow = "=1.0.104"
arboard = { version = "=3.7.0", default-features = false }
euclid = "=0.22.14"
log = "=0.4.35"
raw-window-handle = "=0.6.2"
x11 = "=2.21.0"
xcb = { version = "=1.7.1", features = ["randr", "as-raw-xcb-connection"] }
xkbcommon = { version = "=0.7.0", features = ["x11"] }
