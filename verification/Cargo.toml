[package]
name = "wall_clock_in"
version = "0.1.0"
edition = "2021"
publish = false

[dependencies]
heapless = "=0.8.0"
smart-leds = "=0.4.0"
embassy-sync = "=0.8.0"
embassy-time = "=0.5.1"
embassy-executor = "=0.10.0"
embassy-net = { version = "=0.9.1", features = ["tcp", "dhcpv4", "proto-ipv4", "medium-ethernet"] }
embedded-io-async = "=0.7.0"
static_cell = "=2.1.1"
defmt = "=1.2.0"
esp-hal = { version = "=1.2.2", features = ["esp32c6", "unstable"] }
esp-wifi = { version = "=0.13.0", features = ["esp32c6", "wifi"] }
esp-alloc = { version = "=0.11.0", features = ["esp32c6"] }
esp-rtos = { version = "=0.4.0", features = ["esp32c6", "embassy"] }
