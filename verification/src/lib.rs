//! Weather forecast aggregation.
//!
//! A location is resolved to coordinates by a geocoding service, every
//! configured weather provider is asked for a forecast at those coordinates,
//! and the providers' answers are averaged day by day.
//!
//! The crate holds the rules of that service: which requests are built, how
//! replies are read, how reports are reduced and which response an HTTP
//! request gets. Network traffic and number arithmetic are the caller's part
//! and enter as plain values and function arguments.

pub mod config;
pub mod date;
pub mod error;
pub mod geocoder;
pub mod provider;
pub mod reporter;
pub mod server;
pub mod text;
