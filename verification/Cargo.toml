[package]
name = "ticktock"
version = "0.1.0"
edition = "2021"
publish = false

[dependencies]
cortex-m = "=0.7.10"
cortex-m-rt = "=0.7.7"
cortex-m-rtic = "=1.1.4"
defmt = "=0.3.101"
defmt-rtt = "=0.4.2"
panic-halt = "=0.2.0"
