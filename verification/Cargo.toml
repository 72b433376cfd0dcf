[package]
name = "entity_systems"
version = "0.1.0"
edition = "2021"
publish = false

[dependencies]
bevy = { version = "=0.14.2", default-features = false, features = ["bevy_asset", "bevy_color", "bevy_state"] }
avian2d = { version = "0.1", default-features = false, features = ["2d", "f32", "parry-f32"] }
bevy_consumable_event = "=0.4.0"
