//! Host resource metrics for a home-automation broker: unit formatting,
//! report rendering, a shared single-slot report store, the reconnect
//! state machine of the broker connection, and the discovery descriptors.
pub mod config;
pub mod connection;
pub mod error;
pub mod models;
pub mod registration;
pub mod sampling;
pub mod store;
pub mod utils;
