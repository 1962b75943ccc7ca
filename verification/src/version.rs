//! Registries of installed game versions

use vstd::prelude::*;

use crate::strmap::StrMap;

verus! {

/// A registry of installed versions, each loaded once
#[derive(Debug)]
pub struct VersionRegistry<V> {
    versions: StrMap<V>,
}

impl<V> VersionRegistry<V> {
    /// The loaded versions by name.
    pub closed spec fn versions(&self) -> Map<Seq<char>, V> {
        self.versions.map()
    }

    /// An empty registry
    pub fn new() -> (r: VersionRegistry<V>)
        ensures
            r.versions() == Map::<Seq<char>, V>::empty(),
    {
        VersionRegistry { versions: StrMap::new() }
    }

    /// Whether the version still has to be loaded
    pub fn needs_load(&self, version: &str) -> (r: bool)
        ensures
            r == !self.versions().contains_key(version@),
    {
        !self.versions.contains_key(version)
    }

    /// Records a loaded version
    pub fn insert(&mut self, version: String, inner: V)
        ensures
            final(self).versions() == old(self).versions().insert(version@, inner),
    {
        self.versions.insert(version, inner);
    }

    /// A loaded version
    pub fn get_version(&self, version: &str) -> (r: Option<&V>)
        ensures
            match r {
                Some(v) => self.versions().contains_key(version@) && *v == self.versions()[version@],
                None => !self.versions().contains_key(version@),
            },
    {
        self.versions.get(version)
    }
}

/// Data for client assets and libraries that are only
/// loaded when a client needs them
#[derive(Debug, Clone, Copy, PartialEq, Eq, Structural)]
pub struct ClientAssetsAndLibraries {
    loaded: bool,
}

impl ClientAssetsAndLibraries {
    /// Whether the assets and libraries have been loaded.
    pub closed spec fn spec_loaded(&self) -> bool {
        self.loaded
    }

    /// Assets and libraries that are not loaded yet
    pub fn new() -> (r: ClientAssetsAndLibraries)
        ensures
            !r.spec_loaded(),
    {
        ClientAssetsAndLibraries { loaded: false }
    }

    /// Whether they still have to be loaded
    pub fn needs_load(&self) -> (r: bool)
        ensures
            r == !self.spec_loaded(),
    {
        !self.loaded
    }

    /// Records that they have been loaded
    pub fn mark_loaded(&mut self)
        ensures
            final(self).spec_loaded(),
    {
        self.loaded = true;
    }
}

} // verus!
