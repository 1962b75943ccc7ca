//! Modpacks: the CurseForge manifest and the rules for applying overrides

use vstd::prelude::*;

use crate::text::{chars_of, string_from_chars};

verus! {

/// Information file for a CurseForge pack
#[derive(Debug, Clone, PartialEq, Eq)]
pub struct CurseForgeManifest {
    /// Name of the modpack
    pub name: String,
    /// Version of the modpack
    pub version: String,
    /// Files in the pack
    pub files: Vec<CurseForgePackFile>,
    /// Minecraft / mod loader dependencies
    pub minecraft: CurseForgePackDependencies,
}

/// File in the CurseForge pack index
#[derive(Debug, Clone, Copy, PartialEq, Eq, Structural)]
pub struct CurseForgePackFile {
    /// ID of the CurseForge project this file belongs to
    pub project_id: u32,
    /// ID of the CurseForge file / version
    pub file_id: u32,
}

/// CurseForge pack environment dependencies
#[derive(Debug, Clone, PartialEq, Eq)]
pub struct CurseForgePackDependencies {
    /// Required Minecraft version
    pub version: String,
    /// Required mod loaders
    pub mod_loaders: Vec<CurseForgeModLoader>,
}

/// CurseForge mod loader information
#[derive(Debug, Clone, PartialEq, Eq)]
pub struct CurseForgeModLoader {
    /// ID of the loader
    pub id: String,
    /// Whether this is the primary loader for the pack
    pub primary: bool,
}

impl CurseForgeManifest {
    /// The projects of the pack's files, in the order of the files
    pub fn project_ids(&self) -> (r: Vec<u32>)
        ensures
            r@ == self.files@.map_values(|f: CurseForgePackFile| f.project_id),
    {
        let mut out: Vec<u32> = Vec::new();
        let mut i: usize = 0;
        while i < self.files.len()
            invariant
                i <= self.files@.len(),
                out@ == self.files@.take(i as int).map_values(|f: CurseForgePackFile| f.project_id),
            decreases self.files@.len() - i,
        {
            out.push(self.files[i].project_id);
            proof {
                assert(out@ =~= self.files@.take(i + 1).map_values(|f: CurseForgePackFile| f.project_id));
            }
            i = i + 1;
        }
        proof {
            assert(self.files@.take(self.files@.len() as int) =~= self.files@);
        }
        out
    }

    /// The files of the pack by their IDs, in order
    pub fn file_ids(&self) -> (r: Vec<u32>)
        ensures
            r@ == self.files@.map_values(|f: CurseForgePackFile| f.file_id),
    {
        let mut out: Vec<u32> = Vec::new();
        let mut i: usize = 0;
        while i < self.files.len()
            invariant
                i <= self.files@.len(),
                out@ == self.files@.take(i as int).map_values(|f: CurseForgePackFile| f.file_id),
            decreases self.files@.len() - i,
        {
            out.push(self.files[i].file_id);
            proof {
                assert(out@ =~= self.files@.take(i + 1).map_values(|f: CurseForgePackFile| f.file_id));
            }
            i = i + 1;
        }
        proof {
            assert(self.files@.take(self.files@.len() as int) =~= self.files@);
        }
        out
    }
}

/// The directory of a pack that holds its overrides, with its separator.
pub open spec fn overrides_prefix() -> Seq<char> {
    seq!['o', 'v', 'e', 'r', 'r', 'i', 'd', 'e', 's', '/']
}

/// Where a file of the pack goes relative to the instance: the files under the overrides
/// directory go to the same place below the instance, and the others are no overrides
pub fn override_target(name: &str) -> (r: Option<String>)
    ensures
        overrides_prefix().is_prefix_of(name@) ==> (r matches Some(t) && t@ == name@.skip(
            overrides_prefix().len() as int,
        )),
        !overrides_prefix().is_prefix_of(name@) ==> r is None,
{
    let prefix = chars_of("overrides/");
    proof {
        reveal_strlit("overrides/");
        assert(prefix@ =~= overrides_prefix());
    }
    let cs = chars_of(name);
    if cs.len() < prefix.len() {
        return None;
    }
    let mut i: usize = 0;
    while i < prefix.len()
        invariant
            prefix@ == overrides_prefix(),
            cs@ == name@,
            prefix@.len() <= cs@.len(),
            i <= prefix@.len(),
            forall|j: int| 0 <= j < i ==> cs@[j] == prefix@[j],
        decreases prefix@.len() - i,
    {
        if cs[i] != prefix[i] {
            return None;
        }
        i = i + 1;
    }
    let rest = string_from_chars(cs.as_slice().split_at(prefix.len()).1);
    proof {
        assert(overrides_prefix() =~= name@.take(overrides_prefix().len() as int));
    }
    Some(rest)
}

/// Whether a modpack override is written to its target. An existing target is only
/// replaced while it still holds what the old pack's override held, so that changes
/// the user made are kept; `old_override` is the old pack's version of the file, if
/// there was an old pack holding it
pub fn should_apply_override(target_exists: bool, old_override: Option<&[u8]>, current: &[u8]) -> (r: bool)
    ensures
        r == (!target_exists || (old_override matches Some(prev) && (prev@ == current@))),
{
    if !target_exists {
        return true;
    }
    match old_override {
        None => false,
        Some(prev) => {
            if prev.len() != current.len() {
                return false;
            }
            let mut i: usize = 0;
            while i < prev.len()
                invariant
                    old_override == Some(prev),
                    target_exists,
                    prev@.len() == current@.len(),
                    i <= prev@.len(),
                    forall|j: int| 0 <= j < i ==> prev@[j] == current@[j],
                decreases prev@.len() - i,
            {
                if prev[i] != current[i] {
                    assert(prev@[i as int] != current@[i as int]);
                    return false;
                }
                i = i + 1;
            }
            proof {
                assert(prev@ =~= current@);
            }
            true
        },
    }
}

} // verus!
