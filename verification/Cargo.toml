[package]
name = "character_fsm"
version = "0.1.0"
edition = "2021"
publish = false

[dependencies]
dusk-data-driver = "=1.7.0"
dusk-forge = "=0.3.0"
