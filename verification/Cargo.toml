[package]
name = "picoha-io"
version = "0.1.0"
edition = "2021"
publish = false

[dependencies]
arrayvec = { version = "0.7", default-features = false }
numtoa = "0.2"
heapless = "0.7"
serde = { version = "1", default-features = false, features = ["derive"] }
serde-json-core = "0.5"
usb-device = "0.2"
usbd-serial = "0.1"
rp-pico = "0.7"
cortex-m = "0.7"
embedded-hal = "0.2"
critical-section = "1"
embedded-time = "0.12"
panic-halt = "0.2"
rtic = "2"
