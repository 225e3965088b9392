[package]
name = "water_security"
version = "0.1.0"
edition = "2021"
publish = false

[dependencies]
rusqlite = { version = "*", features = ["bundled"] }
chrono = "*"
calamine = "*"
simple_excel_writer = "*"
