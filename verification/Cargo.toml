[package]
name = "romi_core"
version = "0.1.0"
edition = "2021"
publish = false

[dependencies]
rubble = "=0.0.4"
rubble-nrf5x = { version = "=0.0.4", default-features = false, features = ["52832"] }
nrf52832-hal = "=0.12.2"
cortex-m = "=0.6.7"
cortex-m-rt = "=0.6.15"
cortex-m-rtic = "=0.5.9"
rtt-target = { version = "=0.2.2", features = ["cortex-m"] }
embedded-hal = "=0.2.7"
arrayvec = { version = "=0.5.2", default-features = false }
lsm9ds1 = "=0.1.0"
