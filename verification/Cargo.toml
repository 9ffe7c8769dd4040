[package]
name = "sqlcipher_py"
version = "0.1.0"
edition = "2021"
publish = false

[dependencies]
chrono = { version = "=0.4.45", default-features = false, features = ["std"] }
chrono-tz = "=0.9.0"
pyo3 = { version = "=0.22.6", features = ["chrono", "chrono-tz"] }
rusqlite = { version = "=0.32.1", features = ["bundled-sqlcipher", "column_decltype"] }
