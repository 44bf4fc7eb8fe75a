//! Decision logic of an unattended NixOS upgrade run: which command to
//! build, whether the network allows it, and whether a reboot may follow.

pub mod command;
pub mod config;
pub mod error;
pub mod image;
pub mod network;
pub mod text;
pub mod upgrade;
pub mod window;
