//! What the host and the core exchange.

pub mod event;
pub mod ports;
pub mod video;
