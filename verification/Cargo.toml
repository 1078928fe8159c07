[package]
name = "mdbook_svgbob"
version = "0.1.0"
edition = "2021"
publish = false

[dependencies]
pulldown-cmark = "=0.13.4"
pulldown-cmark-to-cmark = "=23.0.0"
svgbob = "=0.4.1"
semver = "=1.0.28"
serde_json = "=1.0.151"
mdbook = { version = "=0.4.52", default-features = false }
