[package]
name = "toaster"
version = "0.1.0"
edition = "2021"
publish = false

[dependencies]
clap = "=2.34.0"
windows = { version = "=0.58.0", features = ["Data_Xml_Dom", "UI_Notifications", "Win32_Foundation", "Win32_Security", "Win32_System_Com", "Win32_System_Registry", "Win32_UI_Shell"] }
