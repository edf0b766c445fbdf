//! Brings a LoRa gateway concentrator chipset out of reset.
//!
//! A caller binds up to four logical reset signals to physical GPIO lines
//! and, optionally, supplies a list of external reset commands
//! ([`config::Configuration`]). [`registry::PinRegistry::setup_pins`] claims
//! the bound lines as digital outputs, driven low, and owns them from then
//! on. [`registry::PinRegistry::reset_plan`] lays out the fixed, timed reset
//! protocol over the configured signals and commands as an ordered list of
//! [`sequence::Action`] values for a driver loop to perform.

pub mod config;
pub mod error;
pub mod laws;
mod gpio;
pub mod registry;
pub mod sequence;
pub mod signal;
