[package]
name = "crossfont"
version = "0.1.0"
edition = "2021"
publish = false

[dependencies]
freetype-rs = "*"
yeslogic-fontconfig-sys = "*"
foreign-types = "0.5"
libc = "0.2"
log = "0.4"
once_cell = "1"
objc2 = "*"
objc2-core-foundation = "*"
objc2-core-graphics = "*"
objc2-core-text = "*"
objc2-foundation = "*"
dwrote = "*"
winapi = { version = "0.3", features = ["impl-default"] }
