[package]
name = "usbd_uac2"
version = "0.1.0"
edition = "2021"
publish = false

[dependencies]
usb-device = "0.3"
embedded-io = "*"
byteorder-embedded-io = "*"
num-traits = { version = "0.2", default-features = false }
