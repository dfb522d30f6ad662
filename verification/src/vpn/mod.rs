//! Driving the `openvpn` command line client.

pub mod manager;
