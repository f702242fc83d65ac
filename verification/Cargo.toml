[package]
name = "splitnode"
version = "0.1.0"
edition = "2021"
publish = false

[dependencies]
defmt = "*"
defmt-rtt = "*"
embassy-executor = "=0.9.1"
embassy-futures = "*"
embassy-nrf = { version = "=0.11.0", features = ["nrf52840"] }
mousefood = "=0.4.0"
nrf-mpsl = "*"
nrf-sdc = "*"
panic-probe = "*"
rand_chacha = { version = "*", default-features = false }
rand_core = "*"
ratatui = { version = "=0.30.2", default-features = false }
rmk = "=0.9.0"
spin = "*"
st7789v2_driver = "=0.1.0"
static_cell = "*"
talc = { version = "4.4.3", default-features = false, features = ["lock_api"] }
