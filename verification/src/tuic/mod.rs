//! The TUIC outbound: its settings, and what it decides while it connects and
//! relays.
pub mod address_laws;
pub mod datagram;
pub mod description_laws;
pub mod error;
pub mod handler;
pub mod init;
pub mod laws;
pub mod options;
pub mod outbound;
pub mod setting_laws;
pub mod types;
