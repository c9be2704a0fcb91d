[package]
name = "album_wallpaper"
version = "0.1.0"
edition = "2021"
publish = false

[dependencies]
fast_image_resize = "2"
fastblur = "*"
image = "0.24"
dbus = "*"
dconf_rs = "*"
giftwrap = "*"
mpris = "*"
reqwest = { version = "*", default-features = false, features = ["blocking"] }
