[package]
name = "condor_revive"
version = "0.1.0"
edition = "2021"
publish = false

[dependencies]
chrono = "*"
winreg = "*"
windows-service = "*"

[dependencies.windows]
version = "*"
features = [
    "Win32_Foundation",
    "Win32_Security",
    "Win32_Security_Authorization",
    "Win32_System_Diagnostics_ToolHelp",
    "Win32_System_Registry",
    "Win32_System_Services",
]
