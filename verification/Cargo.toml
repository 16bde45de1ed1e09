[package]
name = "rtl8152_led_ctrl"
version = "0.1.0"
edition = "2021"
publish = false

[dependencies]
rusb = "*"
argh = "*"
parse_int = "*"
