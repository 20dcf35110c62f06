[package]
name = "erp"
version = "0.1.0"
edition = "2021"
publish = false

[dependencies]
uuid = { version = "=1.29.1", features = ["v4"] }
chrono = "=0.4.45"
rust_decimal = "=1.43.0"
serde = { version = "=1.0.229", features = ["derive"] }
serde_json = "=1.0.154"
thiserror = "=1.0.69"
sqlx = { version = "=0.8.6", features = ["runtime-tokio", "postgres", "uuid", "chrono", "rust_decimal", "macros", "migrate"] }
tokio = { version = "=1.54.1", features = ["macros", "rt-multi-thread"] }
dotenv = "=0.15.0"
wasm-bindgen = "=0.2.130"
wasm-bindgen-futures = "=0.4.80"
js-sys = "=0.3.107"
web-sys = { version = "=0.3.107", features = ["Window"] }
serde-wasm-bindgen = "=0.6.5"
dioxus = { version = "=0.6.3", features = ["router", "web"] }
dioxus-logger = "=0.6.2"
async-std = "=1.13.2"
