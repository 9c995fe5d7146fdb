[package]
name = "emulator_service"
version = "0.1.0"
edition = "2021"
publish = false

[dependencies]
bytes = "0.4"
grpc = "0.6"
protobuf = "2"
