[package]
name = "rsjs"
version = "0.1.0"
edition = "2021"
publish = false

[dependencies]
godot = "=0.5.5"
rquickjs = { version = "=0.14.0", features = ["macro", "loader"] }
oxc_allocator = "~0.130"
oxc_codegen = "~0.130"
oxc_parser = "~0.130"
oxc_semantic = "~0.130"
oxc_span = "~0.130"
oxc_transformer = "~0.130"
