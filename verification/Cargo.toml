[package]
name = "hijri_date"
version = "0.1.0"
edition = "2021"
publish = false

[dependencies]
arabic_reshaper = "=0.4.2"
chrono = "=0.4.45"
