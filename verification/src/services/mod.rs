//! The Discord REST API: what the requests are made of.

pub mod discord;
