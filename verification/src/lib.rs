//! Battery monitoring for PlayStation controllers: decoding the battery byte
//! of their input reports, keeping the latest readings, deciding which
//! controller to alert about, and the tray menu and startup logic around it.
pub mod alerts;
pub mod autostart;
pub mod controller_info;
pub mod controller_store;
pub mod logger;
pub mod parse_battery_and_charging;
pub mod poll_controllers;
pub mod text;
pub mod tray;
