//! Boot-time configuration, firmware slot management and network bring-up
//! logic of a dual-core microcontroller device.
//!
//! The flash, the radio and the timers are driven by the caller, which hands
//! the results of that work to these functions and acts on what they decide.
//!
//! - `db`: page addressing and staging for the flash partition of the store.
//! - `store`: keys, bounds and bounded reads of the configuration store.
//! - `wifi_config`, `mqtt_config`: credential sets, their precedence and
//!   their verified updates.
//! - `ota`: firmware slot validation and partition lookup.
//! - `wifi`: network bring-up and the never-ending connect loop.
//! - `indicator`, `neopixel`: the status LED's colour.
//! - `web_server`: decisions of the dashboard's event stream and websocket.

pub mod db;
pub mod indicator;
pub mod mqtt_config;
pub mod neopixel;
pub mod ota;
pub mod shared;
pub mod store;
pub mod web_server;
pub mod wifi;
pub mod wifi_config;
