[package]
name = "contact_list"
version = "0.1.0"
edition = "2021"

[dependencies]
iced = "=0.3.0"
env_logger = "*"
