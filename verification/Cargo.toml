[package]
name = "void_client"
version = "0.1.0"
edition = "2021"
publish = false

[dependencies]
jni = "0.21"
once_cell = "1"
winapi = { version = "0.3", features = ["libloaderapi", "processenv", "winbase", "minwindef", "winnt", "handleapi"] }
