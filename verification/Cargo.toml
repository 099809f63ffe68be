[package]
name = "plant_monitor"
version = "0.1.0"
edition = "2021"
publish = false

[dependencies]
bh1750 = "=0.1.0"
cortex-m = "=0.7.10"
defmt = "=0.3.101"
defmt-rtt = "=0.4.2"
display-interface-spi = "=0.5.0"
embassy-executor = { version = "=0.6.3", features = ["arch-std", "executor-thread", "integrated-timers", "defmt", "task-arena-size-32768"] }
embassy-futures = "=0.1.2"
embassy-rp = { version = "=0.2.0", features = ["defmt", "time-driver"] }
embassy-sync = { version = "=0.6.2", features = ["defmt"] }
embassy-time = { version = "=0.3.2", features = ["defmt", "defmt-timestamp-uptime"] }
embedded-graphics = "=0.8.2"
embedded-hal-bus = "=0.2.0"
embedded-layout = "=0.4.2"
heapless = "=0.8.0"
mipidsi = "=0.8.0"
panic-probe = { version = "=0.3.2", features = ["print-defmt"] }
profont = "=0.7.0"
static_cell = "=2.1.1"
