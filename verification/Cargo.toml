[package]
name = "deepseek_agent"
version = "0.1.0"
edition = "2021"
publish = false

[dependencies]
serde_json = "=1.0.151"
ic-cdk = "=0.17.2"
ic-cdk-macros = "=0.17.2"
candid = "=0.10.37"
