[package]
name = "lora_node"
version = "0.1.0"
edition = "2021"
publish = false

[dependencies]
cortex-m = "0.7"
cortex-m-rtic = "1.0"
defmt = "0.3"
defmt-rtt = "0.3"
panic-probe = { version = "0.3", features = ["print-defmt"] }
stm32f4xx-hal = { version = "0.11", features = ["rt", "stm32f411", "rtic"] }
sx127x_lora = "0.3.1"
