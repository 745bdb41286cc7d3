[package]
name = "camera_node"
version = "0.1.0"
edition = "2021"
publish = false

[dependencies]
anyhow = "1"
crossbeam-channel = "0.5"
display-interface = "*"
edge-executor = "*"
embedded-graphics = "0.8"
embedded-hal = "1"
embedded-layout = "0.4"
embedded-svc = "*"
esp-idf-hal = "*"
esp-idf-svc = "*"
esp-idf-sys = "*"
futures = "0.3"
heapless = "*"
image = { version = "0.24", default-features = false, features = ["bmp"] }
log = "0.4"
once_cell = "1"
parking_lot = "0.12"
ssd1306 = "*"
thiserror = "1"
toml-cfg = "*"
