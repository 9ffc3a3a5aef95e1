use vstd::prelude::*;

use crate::dev::DevCommands;
use crate::models::command::{CommandHandler, CommandType};
use crate::registry::NamedMap;

verus! {

/// Collects the handlers of a bot: commands by name, components and
/// modals by id. Registering under a name that is taken replaces the
/// handler.
pub struct BotBuilder<C, K, M> {
    pub(crate) commands: NamedMap<CommandType<C>>,
    pub(crate) components: NamedMap<K>,
    pub(crate) modals: NamedMap<M>,
}

impl<C, K, M> BotBuilder<C, K, M> {
    pub closed spec fn commands_view(self) -> Map<Seq<char>, CommandType<C>> {
        self.commands.view()
    }

    pub closed spec fn components_view(self) -> Map<Seq<char>, K> {
        self.components.view()
    }

    pub closed spec fn modals_view(self) -> Map<Seq<char>, M> {
        self.modals.view()
    }

    /// A builder without handlers.
    pub fn new() -> (r: Self)
        ensures
            r.commands_view() == Map::<Seq<char>, CommandType<C>>::empty(),
            r.components_view() == Map::<Seq<char>, K>::empty(),
            r.modals_view() == Map::<Seq<char>, M>::empty(),
    {
        BotBuilder { commands: NamedMap::new(), components: NamedMap::new(), modals: NamedMap::new() }
    }

    /// Registers the development command group under its name, `dev`.
    pub fn enable_dev_commands(self) -> (r: Self)
        ensures
            r.commands_view() == self.commands_view().insert("dev"@, CommandType::Dev(DevCommands)),
            r.components_view() == self.components_view(),
            r.modals_view() == self.modals_view(),
    {
        let name = DevCommands.name();
        let mut b = self;
        b.commands.insert(name, CommandType::Dev(DevCommands));
        b
    }

    /// Registers a component under its id.
    pub fn register_component(self, id: String, component: K) -> (r: Self)
        ensures
            r.commands_view() == self.commands_view(),
            r.components_view() == self.components_view().insert(id@, component),
            r.modals_view() == self.modals_view(),
    {
        let mut b = self;
        b.components.insert(id, component);
        b
    }

    /// Registers a modal under its id.
    pub fn register_modal(self, id: String, modal: M) -> (r: Self)
        ensures
            r.commands_view() == self.commands_view(),
            r.components_view() == self.components_view(),
            r.modals_view() == self.modals_view().insert(id@, modal),
    {
        let mut b = self;
        b.modals.insert(id, modal);
        b
    }

    /// Registers a command of the bot's own type under its name.
    pub fn register_command(self, name: String, command: C) -> (r: Self)
        ensures
            r.commands_view() == self.commands_view().insert(name@, CommandType::Custom(command)),
            r.components_view() == self.components_view(),
            r.modals_view() == self.modals_view(),
    {
        let mut b = self;
        b.commands.insert(name, CommandType::Custom(command));
        b
    }

    /// Registers a command made of a handler function, with its name and
    /// description, under its name. The handler is not called.
    pub fn register_command_handler(self, name: String, description: String, handler: C) -> (r:
        Self)
        ensures
            r.commands_view() == self.commands_view().insert(
                name@,
                CommandType::Handler(
                    (CommandHandler { name: name, description: description, handler: handler }),
                ),
            ),
            r.components_view() == self.components_view(),
            r.modals_view() == self.modals_view(),
    {
        let key = name.clone();
        let command = CommandHandler::new(name, description, handler);
        let mut b = self;
        b.commands.insert(key, CommandType::Handler(command));
        b
    }

    /// The three tables.
    pub fn into_parts(self) -> (r: (NamedMap<CommandType<C>>, NamedMap<K>, NamedMap<M>))
        ensures
            r.0.view() == self.commands_view(),
            r.1.view() == self.components_view(),
            r.2.view() == self.modals_view(),
    {
        (self.commands, self.components, self.modals)
    }
}

} // verus!
