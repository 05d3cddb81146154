[package]
name = "twilight_interactions"
version = "0.1.0"
edition = "2021"
publish = false

[dependencies]
twilight-model = "0.13"
