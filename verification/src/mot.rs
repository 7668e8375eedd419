//! Support for motor controllers (Talon SRX and Victor SPX).
pub mod config;
pub mod control;
pub mod controller;
pub mod faults;
pub mod sensors;
pub mod settings;
pub mod flags;
mod private;
