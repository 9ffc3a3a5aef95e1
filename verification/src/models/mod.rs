//! The building blocks of messages and interactions.

pub mod command;
pub mod components;

pub mod modals;
