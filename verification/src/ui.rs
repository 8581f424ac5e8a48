//! The front-end's state: what the host's events switch on and off.

pub mod controller;
pub mod lifecycle;
