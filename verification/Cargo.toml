[package]
name = "memory_monitor"
version = "0.1.4"
edition = "2021"
publish = false

[dependencies]
configparser = "*"
sysinfo = "0.29"
chrono = "0.4"
crossterm = "*"
ctrlc = "3"
gntp = "*"
termcolor = "1"
libc = "0.2"
windows-sys = { version = "0.48", features = ["Win32_Foundation", "Win32_System_ProcessStatus", "Win32_System_Threading"] }
