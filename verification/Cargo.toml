[package]
name = "opfs_store"
version = "0.1.0"
edition = "2021"
publish = false

[dependencies]
arrow = { version = "*", default-features = false, features = ["csv", "ipc"] }
regex = "*"
object_store = "*"
chrono = "*"
futures = "*"
bytes = "*"
snafu = "*"
async-trait = "*"
serde = { version = "*", features = ["derive"] }
serde-wasm-bindgen = "*"
wasm-bindgen = "*"
js-sys = "*"
wasm-bindgen-futures = "*"
console_error_panic_hook = "*"
web-sys = { version = "*", features = ["Window", "Navigator", "StorageManager", "File", "FileSystemDirectoryHandle", "FileSystemFileHandle", "FileSystemGetFileOptions", "FileSystemGetDirectoryOptions", "FileSystemWritableFileStream", "console"] }
