[package]
name = "bmp180_agent"
version = "0.1.0"
edition = "2021"
publish = false

[dependencies]
embassy-executor = "*"
embassy-net = { version = "*", features = ["tcp", "dns", "dhcpv4", "medium-ethernet", "proto-ipv4"] }
embassy-time = "*"
embedded-hal-async = "*"
esp-alloc = "*"
esp-backtrace = "*"
esp-bootloader-esp-idf = "*"
esp-hal = "*"
esp-hal-embassy = "*"
esp-println = "*"
esp-wifi = "*"
heapless = "*"
log = "*"
rust-mqtt = "=0.3.1"
static_cell = "*"
