[package]
name = "owner_fee_ledger"
version = "0.1.0"
edition = "2021"
publish = false

[dependencies]
bigdecimal = { version = "0.4", features = ["serde"] }
regex = "1"
chrono = { version = "0.4", features = ["serde"] }
serde = { version = "1", features = ["derive"] }
serde_json = "1"
itertools = "0.13"
hmac = "0.12"
sha2 = "0.10"
base64 = "0.22"
uuid_v7 = "*"
diesel = { version = "2.2", features = ["postgres", "chrono", "numeric", "serde_json"] }
diesel-derive-enum = { version = "2.1", features = ["postgres"] }
actix = "0.13"
actix-web = "4"
futures = "0.3"
lazy_static = "1"
log = "0.4"
encoding_rs = "0.8"
rayon = "1"
rust_xlsxwriter = "0.79"
tokio = { version = "1", features = ["rt-multi-thread", "macros"] }
