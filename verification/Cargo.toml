[package]
name = "tm4c_core"
version = "0.1.0"
edition = "2021"
publish = false

[dependencies]
cortex-m = "0.7"
embedded-hal = "0.2"
nb = "0.1"
tm4c123x = "*"
tm4c129x = "*"
void = { version = "1", default-features = false }
