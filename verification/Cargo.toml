[package]
name = "minerva_lite"
version = "0.1.0"
edition = "2021"
publish = false

[dependencies]
bb8 = "0.7"
bb8-diesel = "0.2"
chrono = "0.4"
diesel = { version = "1.4", features = ["postgres"] }
dotenv = "0.15"
futures = "0.3"
prost = "0.10"
rand = "0.8"
tokio = { version = "1", features = ["macros", "rt-multi-thread", "sync"] }
tokio-stream = "0.1"
tonic = "0.7"
