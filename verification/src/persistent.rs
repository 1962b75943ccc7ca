//! A file that remembers important info like what versions and files are currently installed

use vstd::prelude::*;

use crate::paths::{join_path, spec_join};
use crate::strmap::StrMap;
use crate::text::{owned, str_eq};

verus! {

/// Info about an installed version
#[derive(Debug, Clone)]
pub struct PersistentDataVersionInfo {
    /// The installed version
    pub version: String,
}

/// An installed Java version
#[derive(Debug, Clone)]
pub struct PersistentDataJavaVersion {
    /// The installed release
    pub version: String,
    /// Where it is installed
    pub path: String,
}

/// Used as a function argument
#[derive(Debug, Clone, Copy, PartialEq, Eq, Structural)]
pub enum PersistentDataJavaInstallation {
    /// Adoptium Java
    Adoptium,
    /// Zulu Java
    Zulu,
}

/// What recording a Java installation would change
#[derive(Debug, Clone, PartialEq, Eq)]
pub enum JavaRecordChange {
    /// The recorded release is already the given one
    Unchanged,
    /// No release of this major version is recorded yet
    New,
    /// Another release is recorded, installed at the given path
    Replaced(String),
}

/// A file that remembers important info like what versions and files are currently installed
#[derive(Debug)]
pub struct PersistentData {
    adoptium: StrMap<PersistentDataJavaVersion>,
    zulu: StrMap<PersistentDataJavaVersion>,
    versions: StrMap<PersistentDataVersionInfo>,
}

impl PersistentData {
    /// The recorded installations of a Java flavor, by major version.
    pub closed spec fn java(&self, installation: PersistentDataJavaInstallation) -> Map<
        Seq<char>,
        PersistentDataJavaVersion,
    > {
        match installation {
            PersistentDataJavaInstallation::Adoptium => self.adoptium.map(),
            PersistentDataJavaInstallation::Zulu => self.zulu.map(),
        }
    }

    /// The recorded versions.
    pub closed spec fn versions(&self) -> Map<Seq<char>, PersistentDataVersionInfo> {
        self.versions.map()
    }

    /// Persistent data with nothing recorded
    pub fn new() -> (r: PersistentData)
        ensures
            r.java(PersistentDataJavaInstallation::Adoptium) == Map::<Seq<char>, PersistentDataJavaVersion>::empty(),
            r.java(PersistentDataJavaInstallation::Zulu) == Map::<Seq<char>, PersistentDataJavaVersion>::empty(),
            r.versions() == Map::<Seq<char>, PersistentDataVersionInfo>::empty(),
    {
        PersistentData { adoptium: StrMap::new(), zulu: StrMap::new(), versions: StrMap::new() }
    }

    /// Fix changes in persistent data format; the current format needs no change
    pub fn fix(&mut self)
        ensures
            final(self).java(PersistentDataJavaInstallation::Adoptium) == old(self).java(PersistentDataJavaInstallation::Adoptium),
            final(self).java(PersistentDataJavaInstallation::Zulu) == old(self).java(PersistentDataJavaInstallation::Zulu),
            final(self).versions() == old(self).versions(),
    {
    }

    /// Get the path to the persistent data file
    pub fn get_path(internal_dir: &str) -> (r: String)
        ensures
            r@ == spec_join(internal_dir@, "persistent.json"@),
    {
        join_path(internal_dir, "persistent.json")
    }

    /// Records the installed version info under a name
    pub fn set_version_info(&mut self, name: String, info: PersistentDataVersionInfo)
        ensures
            final(self).versions() == old(self).versions().insert(name@, info),
            final(self).java(PersistentDataJavaInstallation::Adoptium) == old(self).java(PersistentDataJavaInstallation::Adoptium),
            final(self).java(PersistentDataJavaInstallation::Zulu) == old(self).java(PersistentDataJavaInstallation::Zulu),
    {
        self.versions.insert(name, info);
    }

    /// The recorded version info under a name
    pub fn get_version_info(&self, name: &str) -> (r: Option<&PersistentDataVersionInfo>)
        ensures
            match r {
                Some(v) => self.versions().contains_key(name@) && *v == self.versions()[name@],
                None => !self.versions().contains_key(name@),
            },
    {
        self.versions.get(name)
    }

    /// What recording the given release of a Java major version would change
    pub fn check_java_installation(
        &self,
        installation: PersistentDataJavaInstallation,
        major_version: &str,
        version: &str,
    ) -> (r: JavaRecordChange)
        ensures
            match r {
                JavaRecordChange::Unchanged => self.java(installation).contains_key(major_version@)
                    && self.java(installation)[major_version@].version@ == version@,
                JavaRecordChange::New => !self.java(installation).contains_key(major_version@),
                JavaRecordChange::Replaced(p) => self.java(installation).contains_key(major_version@)
                    && self.java(installation)[major_version@].version@ != version@
                    && p@ == self.java(installation)[major_version@].path@,
            },
    {
        let map = match installation {
            PersistentDataJavaInstallation::Adoptium => &self.adoptium,
            PersistentDataJavaInstallation::Zulu => &self.zulu,
        };
        match map.get(major_version) {
            Some(current) => {
                if str_eq(current.version.as_str(), version) {
                    JavaRecordChange::Unchanged
                } else {
                    JavaRecordChange::Replaced(current.path.clone())
                }
            },
            None => JavaRecordChange::New,
        }
    }

    /// Updates a Java installation with a new version. Returns true if the version has changed.
    pub fn update_java_installation(
        &mut self,
        installation: PersistentDataJavaInstallation,
        major_version: &str,
        version: &str,
        path: &str,
    ) -> (r: bool)
        ensures
            r == !(old(self).java(installation).contains_key(major_version@)
                && old(self).java(installation)[major_version@].version@ == version@),
            r ==> final(self).java(installation).contains_key(major_version@)
                && final(self).java(installation)[major_version@].version@ == version@
                && final(self).java(installation)[major_version@].path@ == path@
                && final(self).java(installation).remove(major_version@) == old(self).java(installation).remove(major_version@),
            !r ==> final(self).java(installation) == old(self).java(installation),
            forall|other: PersistentDataJavaInstallation| other != installation ==> #[trigger] final(self).java(other) == old(self).java(other),
            final(self).versions() == old(self).versions(),
    {
        let changed = match self.check_java_installation(installation, major_version, version) {
            JavaRecordChange::Unchanged => false,
            _ => true,
        };
        if changed {
            let entry = PersistentDataJavaVersion { version: owned(version), path: owned(path) };
            let ghost e = entry;
            match installation {
                PersistentDataJavaInstallation::Adoptium => self.adoptium.insert(owned(major_version), entry),
                PersistentDataJavaInstallation::Zulu => self.zulu.insert(owned(major_version), entry),
            }
            proof {
                assert(self.java(installation).remove(major_version@) =~= old(self).java(installation).remove(major_version@));
            }
        }
        changed
    }

    /// Gets the path to a Java installation
    pub fn get_java_path(&self, installation: PersistentDataJavaInstallation, version: &str) -> (r: Option<String>)
        ensures
            match r {
                Some(p) => self.java(installation).contains_key(version@) && p@ == self.java(installation)[version@].path@,
                None => !self.java(installation).contains_key(version@),
            },
    {
        let map = match installation {
            PersistentDataJavaInstallation::Adoptium => &self.adoptium,
            PersistentDataJavaInstallation::Zulu => &self.zulu,
        };
        match map.get(version) {
            Some(v) => Some(v.path.clone()),
            None => None,
        }
    }

    /// The recorded installations of a Java flavor, in the order they were recorded
    pub fn java_entries(&self, installation: PersistentDataJavaInstallation) -> (r: &Vec<(String, PersistentDataJavaVersion)>)
        ensures
            forall|i: int| 0 <= i < r@.len() ==> #[trigger] self.java(installation)[r@[i].0@] == r@[i].1,
            forall|i: int| 0 <= i < r@.len() ==> self.java(installation).contains_key(#[trigger] r@[i].0@),
    {
        let map = match installation {
            PersistentDataJavaInstallation::Adoptium => &self.adoptium,
            PersistentDataJavaInstallation::Zulu => &self.zulu,
        };
        proof {
            map.lemma_keys();
        }
        let r = map.entries();
        proof {
            assert forall|i: int| 0 <= i < r@.len() implies self.java(installation).contains_key(#[trigger] r@[i].0@) by {
                assert(crate::strmap::keys_of(r@)[i] == r@[i].0@);
                assert(map.keys().contains(r@[i].0@));
            }
        }
        r
    }

    /// The recorded versions, in the order they were recorded
    pub fn version_entries(&self) -> (r: &Vec<(String, PersistentDataVersionInfo)>)
        ensures
            forall|i: int| 0 <= i < r@.len() ==> #[trigger] self.versions()[r@[i].0@] == r@[i].1,
    {
        self.versions.entries()
    }
}

} // verus!
