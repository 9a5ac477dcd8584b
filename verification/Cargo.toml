[package]
name = "biome_plugin_loader"
version = "0.1.0"
edition = "2021"
publish = false

[dependencies]
biome_analyze = "=0.5.7"
biome_console = "=0.5.7"
biome_diagnostics = "=0.5.7"
biome_fs = "=0.5.7"
biome_parser = "=0.5.7"
biome_rowan = "=0.5.7"
grit-pattern-matcher = "=0.5.1"
grit-util = "=0.5.1"
