//! A verified hardware-abstraction layer for a microcontroller Wi-Fi radio.
//!
//! The crate models the radio, the system event loop and the non-volatile
//! key-value store as explicit values, so that the connection state machine,
//! the scan logic and the configuration persistence can be specified and
//! proved.  The physical collaborators (radio firmware, IP stack, flash
//! medium) stand behind the environment fields of the radio handle and the
//! event queue; an embedder feeds them.

pub mod claim;
pub mod codec;
pub mod driver;
pub mod config;
pub mod error;
pub mod nvs;
pub mod eventloop;
pub mod netif;
pub mod radio;
pub mod systime;
pub mod wifi;
