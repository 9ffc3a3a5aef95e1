//! A Discord bot framework for Cloudflare Workers: the gateway connection's
//! decision logic, the component layout builders and the command registry.

pub mod gateway;
pub mod text;
pub mod models;
pub mod registry;
pub mod bot;
pub mod dev;
pub mod utils;
pub mod services;
