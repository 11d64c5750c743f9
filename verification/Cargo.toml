[package]
name = "rusteventloop"
version = "0.1.0"
edition = "2021"
publish = false

[dependencies]
compio = { version = "=0.19.2", features = ["time", "polling"] }
futures-channel = "=0.3.34"
glib = "=0.20.12"
gtk4 = "=0.9.7"
libc = "=0.2.191"
libffi = "=3.2.0"
windows-sys = { version = "=0.52.0", features = ["Win32_Foundation", "Win32_UI_WindowsAndMessaging", "Win32_System_Threading"] }
core-foundation = "=0.10.1"
block2 = "=0.5.1"
cacao = "=0.3.2"
native-windows-gui = "=1.0.13"
native-windows-derive = "=1.0.5"
