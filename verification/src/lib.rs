//! Configuration handling of an Electrum server for Bitcoin and DigiByte:
//! network selection, default ports, network magic, daemon credentials,
//! address selection and the checks applied to a parsed configuration.

pub mod address;
pub mod network;
pub mod auth;
pub mod paths;
pub mod config;
pub mod laws;
