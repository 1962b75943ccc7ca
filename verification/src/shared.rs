//! Small shared types that package scripts name: game sides, loader matches, addon kinds
//! and a value that is filled in later.

use vstd::prelude::*;

use crate::text::str_eq;

verus! {

/// A value that is empty at first and filled in once
#[derive(Debug, Clone, PartialEq, Eq)]
pub enum Later<T> {
    Empty,
    Full(T),
}

impl<T> Later<T> {
    /// Whether the value has been filled in
    pub fn is_full(&self) -> (r: bool)
        ensures
            r == (self is Full),
    {
        matches!(self, Later::Full(..))
    }

    /// Whether the value is still empty
    pub fn is_empty(&self) -> (r: bool)
        ensures
            r == (self is Empty),
    {
        matches!(self, Later::Empty)
    }

    /// Fills in the value
    pub fn fill(&mut self, value: T)
        ensures
            *final(self) == Later::Full(value),
    {
        *self = Later::Full(value);
    }
}

/// Side of the game: the client or the server
#[derive(Debug, Clone, Copy, PartialEq, Eq, Structural)]
pub enum GameSide {
    Client,
    Server,
}

/// The side that a script argument names.
pub open spec fn spec_game_side(s: Seq<char>) -> Option<GameSide> {
    if s == seq!['c', 'l', 'i', 'e', 'n', 't'] {
        Some(GameSide::Client)
    } else if s == seq!['s', 'e', 'r', 'v', 'e', 'r'] {
        Some(GameSide::Server)
    } else {
        None
    }
}

impl GameSide {
    /// Parses a side from its script name
    pub fn parse_from_str(string: &str) -> (r: Option<GameSide>)
        ensures
            r == spec_game_side(string@),
    {
        proof {
            reveal_strlit("client");
            reveal_strlit("server");
            assert("client"@ =~= seq!['c', 'l', 'i', 'e', 'n', 't']);
            assert("server"@ =~= seq!['s', 'e', 'r', 'v', 'e', 'r']);
        }
        if str_eq(string, "client") {
            Some(GameSide::Client)
        } else if str_eq(string, "server") {
            Some(GameSide::Server)
        } else {
            None
        }
    }
}

/// Matches for modloaders that a package can support
#[derive(Debug, Clone, Copy, PartialEq, Eq, Structural)]
pub enum ModloaderMatch {
    Vanilla,
    Forge,
    NeoForged,
    ForgeLike,
    Fabric,
    Quilt,
    FabricLike,
}

/// The modloader match that a script argument names.
pub open spec fn spec_modloader_match(s: Seq<char>) -> Option<ModloaderMatch> {
    if s == seq!['v', 'a', 'n', 'i', 'l', 'l', 'a'] {
        Some(ModloaderMatch::Vanilla)
    } else if s == seq!['f', 'o', 'r', 'g', 'e'] {
        Some(ModloaderMatch::Forge)
    } else if s == seq!['n', 'e', 'o', 'f', 'o', 'r', 'g', 'e', 'd'] {
        Some(ModloaderMatch::NeoForged)
    } else if s == seq!['f', 'o', 'r', 'g', 'e', 'l', 'i', 'k', 'e'] {
        Some(ModloaderMatch::ForgeLike)
    } else if s == seq!['f', 'a', 'b', 'r', 'i', 'c'] {
        Some(ModloaderMatch::Fabric)
    } else if s == seq!['q', 'u', 'i', 'l', 't'] {
        Some(ModloaderMatch::Quilt)
    } else if s == seq!['f', 'a', 'b', 'r', 'i', 'c', 'l', 'i', 'k', 'e'] {
        Some(ModloaderMatch::FabricLike)
    } else {
        None
    }
}

impl ModloaderMatch {
    /// Parses a modloader match from its script name
    pub fn parse_from_str(string: &str) -> (r: Option<ModloaderMatch>)
        ensures
            r == spec_modloader_match(string@),
    {
        proof {
            reveal_strlit("vanilla");
            reveal_strlit("forge");
            reveal_strlit("neoforged");
            reveal_strlit("forgelike");
            reveal_strlit("fabric");
            reveal_strlit("quilt");
            reveal_strlit("fabriclike");
            assert("vanilla"@ =~= seq!['v', 'a', 'n', 'i', 'l', 'l', 'a']);
            assert("forge"@ =~= seq!['f', 'o', 'r', 'g', 'e']);
            assert("neoforged"@ =~= seq!['n', 'e', 'o', 'f', 'o', 'r', 'g', 'e', 'd']);
            assert("forgelike"@ =~= seq!['f', 'o', 'r', 'g', 'e', 'l', 'i', 'k', 'e']);
            assert("fabric"@ =~= seq!['f', 'a', 'b', 'r', 'i', 'c']);
            assert("quilt"@ =~= seq!['q', 'u', 'i', 'l', 't']);
            assert("fabriclike"@ =~= seq!['f', 'a', 'b', 'r', 'i', 'c', 'l', 'i', 'k', 'e']);
        }
        if str_eq(string, "vanilla") {
            Some(ModloaderMatch::Vanilla)
        } else if str_eq(string, "forge") {
            Some(ModloaderMatch::Forge)
        } else if str_eq(string, "neoforged") {
            Some(ModloaderMatch::NeoForged)
        } else if str_eq(string, "forgelike") {
            Some(ModloaderMatch::ForgeLike)
        } else if str_eq(string, "fabric") {
            Some(ModloaderMatch::Fabric)
        } else if str_eq(string, "quilt") {
            Some(ModloaderMatch::Quilt)
        } else if str_eq(string, "fabriclike") {
            Some(ModloaderMatch::FabricLike)
        } else {
            None
        }
    }
}

/// Matches for plugin loaders that a package can support
#[derive(Debug, Clone, Copy, PartialEq, Eq, Structural)]
pub enum PluginLoaderMatch {
    Vanilla,
    BukkitLike,
}

/// The plugin loader match that a script argument names.
pub open spec fn spec_plugin_loader_match(s: Seq<char>) -> Option<PluginLoaderMatch> {
    if s == seq!['v', 'a', 'n', 'i', 'l', 'l', 'a'] {
        Some(PluginLoaderMatch::Vanilla)
    } else if s == seq!['b', 'u', 'k', 'k', 'i', 't'] {
        Some(PluginLoaderMatch::BukkitLike)
    } else {
        None
    }
}

impl PluginLoaderMatch {
    /// Parses a plugin loader match from its script name
    pub fn parse_from_str(string: &str) -> (r: Option<PluginLoaderMatch>)
        ensures
            r == spec_plugin_loader_match(string@),
    {
        proof {
            reveal_strlit("vanilla");
            reveal_strlit("bukkit");
            assert("vanilla"@ =~= seq!['v', 'a', 'n', 'i', 'l', 'l', 'a']);
            assert("bukkit"@ =~= seq!['b', 'u', 'k', 'k', 'i', 't']);
        }
        if str_eq(string, "vanilla") {
            Some(PluginLoaderMatch::Vanilla)
        } else if str_eq(string, "bukkit") {
            Some(PluginLoaderMatch::BukkitLike)
        } else {
            None
        }
    }
}

/// Kinds of addons that packages install
#[derive(Debug, Clone, Copy, PartialEq, Eq, Structural)]
pub enum AddonKind {
    ResourcePack,
    Mod,
    Plugin,
    Shader,
    Datapack,
}

/// The addon kind that a script argument names.
pub open spec fn spec_addon_kind(s: Seq<char>) -> Option<AddonKind> {
    if s == seq!['r', 'e', 's', 'o', 'u', 'r', 'c', 'e', '_', 'p', 'a', 'c', 'k'] {
        Some(AddonKind::ResourcePack)
    } else if s == seq!['m', 'o', 'd'] {
        Some(AddonKind::Mod)
    } else if s == seq!['p', 'l', 'u', 'g', 'i', 'n'] {
        Some(AddonKind::Plugin)
    } else if s == seq!['s', 'h', 'a', 'd', 'e', 'r'] {
        Some(AddonKind::Shader)
    } else if s == seq!['d', 'a', 't', 'a', 'p', 'a', 'c', 'k'] {
        Some(AddonKind::Datapack)
    } else {
        None
    }
}

impl AddonKind {
    /// Parses an addon kind from its script name
    pub fn parse_from_str(string: &str) -> (r: Option<AddonKind>)
        ensures
            r == spec_addon_kind(string@),
    {
        proof {
            reveal_strlit("resource_pack");
            reveal_strlit("mod");
            reveal_strlit("plugin");
            reveal_strlit("shader");
            reveal_strlit("datapack");
            assert("resource_pack"@ =~= seq!['r', 'e', 's', 'o', 'u', 'r', 'c', 'e', '_', 'p', 'a', 'c', 'k']);
            assert("mod"@ =~= seq!['m', 'o', 'd']);
            assert("plugin"@ =~= seq!['p', 'l', 'u', 'g', 'i', 'n']);
            assert("shader"@ =~= seq!['s', 'h', 'a', 'd', 'e', 'r']);
            assert("datapack"@ =~= seq!['d', 'a', 't', 'a', 'p', 'a', 'c', 'k']);
        }
        if str_eq(string, "resource_pack") {
            Some(AddonKind::ResourcePack)
        } else if str_eq(string, "mod") {
            Some(AddonKind::Mod)
        } else if str_eq(string, "plugin") {
            Some(AddonKind::Plugin)
        } else if str_eq(string, "shader") {
            Some(AddonKind::Shader)
        } else if str_eq(string, "datapack") {
            Some(AddonKind::Datapack)
        } else {
            None
        }
    }
}

} // verus!
