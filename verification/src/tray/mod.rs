//! The system tray icon.

pub mod indicator;
