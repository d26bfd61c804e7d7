//! Verified core of a split-tunnel controller.
//!
//! The controller talks to a kernel filter driver that steers the traffic of
//! selected applications around a VPN tunnel. Everything here is free of I/O:
//! byte layouts of the driver's messages, the decisions taken while a device
//! is opened, while requests are served and while routes change. The shell
//! around it performs the system calls and feeds their outcomes back in.
pub mod addresses;
pub mod api_call;
pub mod config;
pub mod controller;
pub mod daemon;
pub mod device;
pub mod error;
pub mod event;
pub mod event_loop;
pub mod ioctl;
pub mod migration;
pub mod process;
pub mod requests;
pub mod state;
pub mod text;
pub mod wire;
pub mod wireguard;
