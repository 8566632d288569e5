//! The registry of configured tunnels.

use vstd::prelude::*;
use vstd::hash_map::StringHashMap;
use crate::command::{TunnelCommand, TunnelCommandView};

verus! {

/// Mapping from tunnel identifier to its command definitions. It is filled
/// once at startup and only read afterwards.
pub struct CommandRegistry {
    commands: StringHashMap<TunnelCommand>,
}

impl View for CommandRegistry {
    type V = Map<Seq<char>, TunnelCommandView>;

    closed spec fn view(&self) -> Map<Seq<char>, TunnelCommandView> {
        self.commands@.map_values(|c: TunnelCommand| c@)
    }
}

impl CommandRegistry {
    /// A registry without any tunnel.
    pub fn new() -> (out: Self)
        ensures
            out@ == Map::<Seq<char>, TunnelCommandView>::empty(),
    {
        let out = CommandRegistry { commands: StringHashMap::new() };
        assert(out@ =~= Map::<Seq<char>, TunnelCommandView>::empty());
        out
    }

    /// Registers `command` under `id`, replacing an earlier definition.
    pub fn insert(&mut self, id: String, command: TunnelCommand)
        ensures
            final(self)@ == old(self)@.insert(id@, command@),
    {
        self.commands.insert(id, command);
        assert(self@ =~= old(self)@.insert(id@, command@));
    }

    /// Whether a tunnel is registered under `id`.
    pub fn contains(&self, id: &str) -> (out: bool)
        ensures
            out == self@.contains_key(id@),
    {
        self.commands.contains_key(id)
    }

    /// The definition registered under `id`, if there is one.
    pub fn lookup(&self, id: &str) -> (out: Option<&TunnelCommand>)
        ensures
            match out {
                Some(command) => self@.contains_key(id@) && command@ == self@[id@],
                None => !self@.contains_key(id@),
            },
    {
        self.commands.get(id)
    }

    /// Number of registered tunnels.
    pub fn len(&self) -> (out: usize)
        ensures
            out == self@.len(),
    {
        proof {
            assert(self@.dom() =~= self.commands@.dom());
        }
        self.commands.len()
    }
}

} // verus!
