[package]
name = "the-honkers-railway-launcher"
version = "0.1.0"
edition = "2021"
publish = false

[dependencies]
relm4 = { version = "0.6", features = ["macros", "libadwaita"] }
open = "5"
tracing = "0.1"
