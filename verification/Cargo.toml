[package]
name = "dynwinrt"
version = "0.1.0"
edition = "2021"
publish = false

[dependencies]
libffi = "*"
windows-core = "*"
windows-future = "*"
windows = { version = "*", features = ["Foundation", "Storage", "Win32_System_WinRT", "Win32_System_LibraryLoader", "ApplicationModel", "Management_Deployment"] }

[dev-dependencies]
windows-collections = "*"
