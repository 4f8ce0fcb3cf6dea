[package]
name = "typ_js"
version = "0.1.0"
edition = "2021"

[dependencies]
typst = "=0.15.1"
typst-assets = { version = "=0.15.1", features = ["fonts"] }
typst-layout = "=0.15.1"
typst-pdf = "=0.15.1"
typst-svg = "=0.15.1"
chrono = "=0.4.45"
