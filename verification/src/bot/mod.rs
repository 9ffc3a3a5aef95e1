//! The bot: its command, component and modal handlers.

pub mod builder;
pub mod commands;
pub mod laws;

use vstd::prelude::*;

use crate::bot::builder::BotBuilder;
use crate::models::command::CommandType;
use crate::registry::NamedMap;

verus! {

/// A bot with its handlers, each known by name.
pub struct Bot<C, K, M> {
    pub(crate) commands: NamedMap<CommandType<C>>,
    pub(crate) components: NamedMap<K>,
    pub(crate) modals: NamedMap<M>,
}

impl<C, K, M> Bot<C, K, M> {
    pub closed spec fn commands_view(self) -> Map<Seq<char>, CommandType<C>> {
        self.commands.view()
    }

    pub closed spec fn components_view(self) -> Map<Seq<char>, K> {
        self.components.view()
    }

    pub closed spec fn modals_view(self) -> Map<Seq<char>, M> {
        self.modals.view()
    }

    /// A bot without handlers.
    pub fn new() -> (r: Self)
        ensures
            r.commands_view() == Map::<Seq<char>, CommandType<C>>::empty(),
            r.components_view() == Map::<Seq<char>, K>::empty(),
            r.modals_view() == Map::<Seq<char>, M>::empty(),
    {
        Bot { commands: NamedMap::new(), components: NamedMap::new(), modals: NamedMap::new() }
    }

    /// The bot that a builder describes.
    pub fn from_builder(builder: BotBuilder<C, K, M>) -> (r: Self)
        ensures
            r.commands_view() == builder.commands_view(),
            r.components_view() == builder.components_view(),
            r.modals_view() == builder.modals_view(),
    {
        let (commands, components, modals) = builder.into_parts();
        Bot { commands, components, modals }
    }

    /// The command registered under a name.
    pub fn command(&self, name: &String) -> (r: Option<&CommandType<C>>)
        ensures
            match r {
                Some(c) => self.commands_view().contains_key(name@) && self.commands_view()[name@]
                    == *c,
                None => !self.commands_view().contains_key(name@),
            },
    {
        self.commands.get(name)
    }

    /// The component registered under an id.
    pub fn component(&self, id: &String) -> (r: Option<&K>)
        ensures
            match r {
                Some(c) => self.components_view().contains_key(id@) && self.components_view()[id@]
                    == *c,
                None => !self.components_view().contains_key(id@),
            },
    {
        self.components.get(id)
    }

    /// The modal registered under an id.
    pub fn modal(&self, id: &String) -> (r: Option<&M>)
        ensures
            match r {
                Some(c) => self.modals_view().contains_key(id@) && self.modals_view()[id@] == *c,
                None => !self.modals_view().contains_key(id@),
            },
    {
        self.modals.get(id)
    }
}

} // verus!
