[package]
name = "rs_coffee"
version = "0.1.0"
edition = "2021"
publish = false

[dependencies]
anyhow = "*"
dotenv_codegen = "*"
ds18b20 = "*"
embedded-svc = "*"
esp-idf-hal = "*"
esp-idf-svc = "*"
esp-idf-sys = "*"
http = "*"
loadcell = "*"
log = "*"
mime = "*"
one-wire-bus = "*"
pid-ctrl = "*"
postcard = "*"
rand = "*"
rand_distr = "*"
serde = { version = "*", features = ["derive"] }
serde_json = "*"
smart_led_effects = "*"
smart-leds-trait = "*"
ws2812-esp32-rmt-driver = "*"
