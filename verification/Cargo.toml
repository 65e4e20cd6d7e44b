[package]
name = "anti_tamper"
version = "0.1.0"
edition = "2021"
publish = false

[dependencies]
dirs = "*"
winapi = { version = "0.3", features = ["processthreadsapi", "winnt", "psapi", "handleapi", "minwindef", "debugapi"] }
