[package]
name = "dlss_wgpu_dx12"
version = "0.1.0"
edition = "2021"
publish = false

[dependencies]
bitflags = "2"
glam = "*"
libloading = "0.8"
log = "0.4"
thiserror = "2"
uuid = { version = "1", features = ["v4"] }
wgpu = { version = "29", default-features = false, features = ["dx12", "std"] }
windows = { version = "*", features = ["Win32_Foundation", "Win32_Security", "Win32_Security_Cryptography", "Win32_Security_WinTrust", "Win32_Storage_FileSystem", "Win32_Graphics_Direct3D12", "Win32_Graphics_Dxgi", "Win32_Graphics_Dxgi_Common"] }
