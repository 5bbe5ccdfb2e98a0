[package]
name = "colabie"
version = "0.1.0"
edition = "2021"
publish = false

[dependencies]
base64 = "0.22"
fips204 = "0.4"
rand_chacha = "0.3"
rand_core = { version = "0.6", features = ["getrandom"] }
bitcode = { version = "0.6", features = ["derive"] }
nanoserde = "0.1"
git2 = { version = "0.20", default-features = false }
tokio = { version = "1", features = ["macros", "rt-multi-thread", "net", "sync"] }
axum = "0.8"
tower-http = { version = "0.6", features = ["cors", "trace"] }
tracing = "0.1"
tracing-subscriber = { version = "0.3", features = ["env-filter"] }
thiserror = "2"
clap = { version = "4", features = ["derive"] }
wasm-bindgen = "0.2"
wasm-bindgen-futures = "0.4"
