[package]
name = "microfrontends"
version = "0.1.0"
edition = "2021"
publish = false

[dependencies]
biome_console = "=0.5.7"
biome_deserialize = { version = "=0.6.0", features = ["serde"] }
biome_diagnostics = "=0.5.7"
biome_json_factory = "=0.5.7"
biome_json_parser = "=0.5.7"
biome_json_syntax = "=0.5.7"
biome_markup = "=0.5.7"
biome_parser = "=0.5.7"
biome_rowan = "=0.5.7"
biome_string_case = "=0.5.7"
biome_text_edit = "=0.5.7"
biome_text_size = "=0.5.7"
biome_unicode_table = "=0.5.7"
serde_json = { version = "=1.0.151", features = ["preserve_order"] }
