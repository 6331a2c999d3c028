[package]
name = "tmtcopen"
version = "0.1.0"
edition = "2021"
publish = false

[dependencies]
cairo-rs = "0.18"
confy = "0.6"
gdk = "0.18"
gdk-pixbuf = "0.18"
glib = "0.18"
gtk = "0.18"
serde = { version = "1", features = ["derive"] }
