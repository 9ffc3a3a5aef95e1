//! Slash commands as the bot registers them.

use vstd::prelude::*;

use crate::dev::DevCommands;

verus! {

/// The permission bit of administrators (`1 << 3`): a command that needs it
/// is shown to administrators only.
pub const ADMINISTRATOR: u64 = 8;

/// A command made of a name, a description and a handler function.
#[derive(Debug, PartialEq, Eq)]
pub struct CommandHandler<F> {
    pub name: String,
    pub description: String,
    pub handler: F,
}

impl<F> CommandHandler<F> {
    pub fn new(name: String, description: String, handler: F) -> (r: Self)
        ensures
            r.name == name,
            r.description == description,
            r.handler == handler,
    {
        CommandHandler { name, description, handler }
    }

    /// The name of the command.
    pub fn name(&self) -> (r: String)
        ensures
            r == self.name,
    {
        self.name.clone()
    }

    /// The description of the command.
    pub fn description(&self) -> (r: String)
        ensures
            r == self.description,
    {
        self.description.clone()
    }
}

/// A registered command: the development command group, a command made of
/// a handler function, or a command of the bot's own type.
#[derive(Debug, PartialEq, Eq)]
pub enum CommandType<C> {
    Dev(DevCommands),
    Handler(CommandHandler<C>),
    Custom(C),
}

} // verus!
