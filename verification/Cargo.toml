[package]
name = "ps_battery"
version = "0.1.0"
edition = "2021"
publish = false

[dependencies]
hidapi = "2"
windows = { version = "0.61", features = ["ApplicationModel", "Foundation", "Data_Xml_Dom", "UI_Notifications", "Win32_Foundation", "Win32_Devices_Bluetooth", "Win32_Graphics_Gdi", "Win32_Media_Audio", "Win32_Storage_Packaging_Appx", "Win32_System_LibraryLoader", "Win32_System_Registry", "Win32_System_WinRT", "Win32_UI_Shell", "Win32_UI_WindowsAndMessaging"] }
