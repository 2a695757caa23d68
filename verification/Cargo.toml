[package]
name = "event_broker"
version = "0.1.0"
edition = "2021"
publish = false

[dependencies]
async-std = "1"
futures = "0.3"
glium = "0.25"
imgui = "0.2"
imgui-glium-renderer = "0.2"
imgui-winit-support = "0.2"
