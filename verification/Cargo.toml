[package]
name = "firmware_logic"
version = "0.1.0"
edition = "2021"
publish = false

[dependencies]
embedded-hal = "=0.2.7"
fugit = "=0.3.9"
ringbuffer = "=0.15.0"
serde = { version = "=1.0.229", default-features = false, features = ["derive"] }
serde-big-array = "=0.5.1"
postcard = "=1.1.3"
strum = { version = "=0.26.3", default-features = false, features = ["derive"] }
strum_macros = "=0.26.4"
uom = { version = "=0.38.0", features = ["serde"] }
smoltcp = { version = "=0.11.0", default-features = false, features = ["medium-ethernet", "proto-ipv4", "socket-tcp", "socket-udp", "socket-icmp"] }
cortex-m = "=0.7.10"
cortex-m-rt = "=0.7.7"
embedded-time = "=0.12.1"
embedded-graphics = "=0.7.1"
ssd1351 = { version = "=0.4.2", features = ["buffered"] }
format_no_std = "=1.2.0"
stm32h7xx-hal = { version = "=0.16.0", features = ["stm32h747cm7", "ethernet"] }
rtic = { version = "=2.4.0", features = ["thumbv7-backend"] }
rtic-monotonics = { version = "=1.5.0", features = ["cortex-m-systick", "systick-64bit"] }
asm-delay-embedded-time = "=0.9.1"
defmt = "=0.3.101"
defmt-rtt = "=0.4.2"
panic-probe = "=0.3.2"
rtt-target = "=0.6.2"
