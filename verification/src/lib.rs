//! Connection, profile and tray logic of a graphical OpenVPN client.

pub mod text;
pub mod path;
pub mod vpn;
pub mod profile;
pub mod window;
pub mod stats;
pub mod tray;
pub mod toggle;
pub mod panel;
