//! Verified core of a Stream Deck front end for Home Assistant.
//!
//! The crate holds the decisions of the integration as plain functions with
//! contracts: the configuration data, the supervisor of the hub connection
//! with its entity state cache, and the layout of the button grids. Sockets,
//! timers and the device itself belong to the program around this library.

pub mod config;
pub mod hass;
pub mod plugins;

pub use config::{HomeAssistantButton, HomeAssistantConfig, HomeAssistantMenu};
pub use hass::PersistentHassConnection;
pub use plugins::HomeAssistantPlugin;
