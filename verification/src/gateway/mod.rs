//! The Discord gateway connection held by a durable object.

pub mod constants;
pub mod credentials;
pub mod effect;
pub mod event;
pub mod state;
pub mod status;
pub mod utils;
pub mod machine;
pub mod webhook;
pub mod endpoint;
pub mod laws;
