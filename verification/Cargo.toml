[package]
name = "simple_gallery"
version = "0.1.0"
edition = "2021"
publish = false

[dependencies]
image = { version = "=0.25.10", default-features = false, features = ["bmp", "gif", "ico", "jpeg", "png", "pnm", "tga", "tiff", "webp"] }
rocket = { version = "0.5", features = ["json"] }
rocket_dyn_templates = { version = "*", features = ["handlebars"] }
serde = "=1.0.229"
serde_derive = "=1.0.229"
serde_json = "=1.0.154"
dotenv = "=0.15.0"
