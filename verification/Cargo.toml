[package]
name = "rovella_platform"
version = "0.1.0"
edition = "2021"
publish = false

[dependencies]
libc = "0.2"
winapi = { version = "0.3", features = ["minwindef", "windef", "windowsx", "errhandlingapi", "libloaderapi", "synchapi", "winuser"] }
x11 = { version = "2", features = ["xlib", "xlib_xcb"] }
xcb = "0.9"
