[package]
name = "life_matrix"
version = "0.1.0"
edition = "2021"
publish = false

[dependencies]
cortex-m = "=0.7.9"
cortex-m-rt = "=0.7.7"
defmt = "=1.1.1"
defmt-rtt = "=1.3.0"
max7219 = "=0.4.2"
panic-probe = "=1.0.0"
stm32f1xx-hal = { version = "=0.10.0", features = ["stm32f103", "medium"] }
