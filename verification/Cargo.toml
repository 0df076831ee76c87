[package]
name = "bldc_foc"
version = "0.1.0"
edition = "2021"
publish = false

[dependencies]
libm = "0.2"
idsp = "*"
embedded-can = "0.4"
