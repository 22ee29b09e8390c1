[package]
name = "wakepcbox"
version = "0.1.0"
edition = "2021"
publish = false

[dependencies]
wake-on-lan = "=0.2.0"
config = { version = "=0.15.27", default-features = false, features = ["toml"] }
toml-cfg = "=0.2.0"
anyhow = "=1.0.104"
log = "=0.4.34"
chrono = "=0.4.45"
embedded-graphics = "=0.8.2"
ssd1306 = "0.8"
tinybmp = "0.5"
esp-idf-hal = "0.42"
esp-idf-svc = "0.47"
esp-idf-sys = "0.33"
