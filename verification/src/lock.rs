//! Stored install info about an instance: its game version and loader, the packages and
//! addons installed on it, and its modpack

use vstd::prelude::*;

use crate::paths::join_path;
use crate::shared::AddonKind;
use crate::text::{
    append_strings, opt_str_eq, opt_str_view, opt_string_copy, owned, str_eq, strings_contain,
    strings_copy,
};

verus! {

/// A loader that an instance can be installed with
#[derive(Debug, Clone, Copy, PartialEq, Eq, Structural, Default)]
pub enum Loader {
    #[default]
    Vanilla,
    Forge,
    NeoForged,
    Fabric,
    Quilt,
    LiteLoader,
    Risugamis,
    Rift,
    Paper,
    Sponge,
    SpongeForge,
    CraftBukkit,
    Spigot,
    Glowstone,
    Pufferfish,
    Purpur,
    Folia,
}

/// Optional hashes of an addon file
#[derive(Debug, Clone, Default, PartialEq)]
pub struct AddonOptionalHashes {
    pub sha256: Option<String>,
    pub sha512: Option<String>,
}

/// The mathematical value of addon hashes.
pub struct SHashes {
    pub sha256: Option<Seq<char>>,
    pub sha512: Option<Seq<char>>,
}

impl View for AddonOptionalHashes {
    type V = SHashes;

    open spec fn view(&self) -> SHashes {
        SHashes { sha256: opt_str_view(self.sha256), sha512: opt_str_view(self.sha512) }
    }
}

impl AddonOptionalHashes {
    /// No hashes
    pub fn none() -> (r: AddonOptionalHashes)
        ensures
            r@ == (SHashes { sha256: None, sha512: None }),
    {
        AddonOptionalHashes { sha256: None, sha512: None }
    }

    /// Whether no hash is known
    pub fn is_empty(&self) -> (r: bool)
        ensures
            r == (self.sha256 is None && self.sha512 is None),
    {
        self.sha256.is_none() && self.sha512.is_none()
    }

    /// A copy of these hashes.
    pub fn duplicate(&self) -> (r: AddonOptionalHashes)
        ensures
            r@ == self@,
    {
        AddonOptionalHashes {
            sha256: opt_string_copy(&self.sha256),
            sha512: opt_string_copy(&self.sha512),
        }
    }
}

/// Package stored in the instance lockfile
#[derive(Debug, Clone)]
pub struct LockfilePackage {
    /// The selected content version of this package
    pub content_version: Option<String>,
}

/// Addon stored in the instance lockfile
#[derive(Debug, Clone, PartialEq)]
pub struct LockfileAddon {
    /// ID of the addon
    pub id: Option<String>,
    /// Source package for this addon
    pub package: Option<String>,
    /// Whether this addon was from a modpack
    pub from_modpack: bool,
    /// Filename of the addon
    pub file_name: String,
    /// Files for the addon
    pub files: Vec<String>,
    /// The kind of the addon
    pub kind: AddonKind,
    /// Hashes for the addon
    pub hashes: AddonOptionalHashes,
}

/// The mathematical value of a locked addon.
pub struct SLockAddon {
    pub id: Option<Seq<char>>,
    pub package: Option<Seq<char>>,
    pub from_modpack: bool,
    pub file_name: Seq<char>,
    pub files: Seq<Seq<char>>,
    pub kind: AddonKind,
    pub hashes: SHashes,
}

impl View for LockfileAddon {
    type V = SLockAddon;

    open spec fn view(&self) -> SLockAddon {
        SLockAddon {
            id: opt_str_view(self.id),
            package: opt_str_view(self.package),
            from_modpack: self.from_modpack,
            file_name: self.file_name@,
            files: self.files.deep_view(),
            kind: self.kind,
            hashes: self.hashes@,
        }
    }
}

/// An addon installed on an instance, at the paths it was linked to
#[derive(Debug)]
pub struct Addon {
    /// The kind of the addon
    pub kind: AddonKind,
    /// The file name of the addon
    pub file_name: String,
    /// The path the addon was stored at before it was linked, if known
    pub original_path: Option<String>,
    /// The paths the addon is linked to in the instance
    pub target_paths: Vec<String>,
    /// Hashes for the addon
    pub hashes: AddonOptionalHashes,
}

/// The mathematical value of an installed addon.
pub struct SAddon {
    pub kind: AddonKind,
    pub file_name: Seq<char>,
    pub original_path: Option<Seq<char>>,
    pub target_paths: Seq<Seq<char>>,
    pub hashes: SHashes,
}

impl View for Addon {
    type V = SAddon;

    open spec fn view(&self) -> SAddon {
        SAddon {
            kind: self.kind,
            file_name: self.file_name@,
            original_path: opt_str_view(self.original_path),
            target_paths: self.target_paths.deep_view(),
            hashes: self.hashes@,
        }
    }
}

/// Whether a locked addon comes from the given package.
pub open spec fn spec_is_from_package(a: SLockAddon, req: Seq<char>) -> bool {
    a.package == Some(req)
}

/// Whether a locked addon is the addon with the given ID from the given package.
pub open spec fn spec_is_package_addon(a: SLockAddon, req: Seq<char>, addon_id: Seq<char>) -> bool {
    spec_is_from_package(a, req) && a.id == Some(addon_id)
}

/// The installed addon that a locked addon stands for.
pub open spec fn spec_to_addon(a: SLockAddon) -> SAddon {
    SAddon {
        kind: a.kind,
        file_name: a.file_name,
        original_path: None,
        target_paths: a.files,
        hashes: a.hashes,
    }
}

impl LockfileAddon {
    /// Checks if this is addon is from a specific package
    pub fn is_from_package(&self, req: &str) -> (r: bool)
        ensures
            r == spec_is_from_package(self@, req@),
    {
        match &self.package {
            Some(p) => str_eq(p.as_str(), req),
            None => false,
        }
    }

    /// Checks if this is a specific addon from a specific package
    pub fn is_package_addon(&self, req: &str, addon_id: &str) -> (r: bool)
        ensures
            r == spec_is_package_addon(self@, req@, addon_id@),
    {
        self.is_from_package(req) && match &self.id {
            Some(id) => str_eq(id.as_str(), addon_id),
            None => false,
        }
    }

    /// Converts this lockfile addon to an addon
    pub fn to_addon(&self) -> (r: Addon)
        ensures
            r@ == spec_to_addon(self@),
    {
        Addon {
            kind: self.kind,
            file_name: self.file_name.clone(),
            original_path: None,
            target_paths: strings_copy(&self.files),
            hashes: self.hashes.duplicate(),
        }
    }

    /// A copy of this addon.
    pub fn duplicate(&self) -> (r: LockfileAddon)
        ensures
            r@ == self@,
    {
        LockfileAddon {
            id: opt_string_copy(&self.id),
            package: opt_string_copy(&self.package),
            from_modpack: self.from_modpack,
            file_name: self.file_name.clone(),
            files: strings_copy(&self.files),
            kind: self.kind,
            hashes: self.hashes.duplicate(),
        }
    }
}

/// Information about a modpack in the lockfile
#[derive(Debug, Clone)]
pub struct LockfileModpack {
    /// Display name of the modpack
    pub name: String,
    /// Stored path of the modpack
    pub path: String,
    /// Suppressed packages of the modpack
    pub packages: Vec<String>,
}

/// The mathematical value of a locked modpack.
pub struct SModpack {
    pub name: Seq<char>,
    pub path: Seq<char>,
    pub packages: Seq<Seq<char>>,
}

impl View for LockfileModpack {
    type V = SModpack;

    open spec fn view(&self) -> SModpack {
        SModpack { name: self.name@, path: self.path@, packages: self.packages.deep_view() }
    }
}

/// The mathematical value of an optional modpack.
pub open spec fn opt_modpack_view(m: Option<LockfileModpack>) -> Option<SModpack> {
    match m {
        Some(m) => Some(m@),
        None => None,
    }
}

/// The mathematical value of a list of locked addons.
pub open spec fn addons_view(v: Seq<LockfileAddon>) -> Seq<SLockAddon> {
    v.map_values(|a: LockfileAddon| a@)
}

/// The mathematical value of the locked packages: their IDs and content versions, in order.
pub open spec fn packages_view(v: Seq<(String, LockfilePackage)>) -> Seq<(Seq<char>, Option<Seq<char>>)> {
    v.map_values(|p: (String, LockfilePackage)| (p.0@, opt_str_view(p.1.content_version)))
}

/// The mathematical value of an instance lockfile.
pub struct SLockfile {
    pub minecraft_version: Option<Seq<char>>,
    pub loader: Loader,
    pub loader_version: Option<Seq<char>>,
    /// Package IDs with their content versions; no ID occurs twice
    pub packages: Seq<(Seq<char>, Option<Seq<char>>)>,
    pub configured_packages: Seq<Seq<char>>,
    pub addons: Seq<SLockAddon>,
    pub modpack: Option<SModpack>,
    pub path: Seq<char>,
}

/// Stored install info about an instance
#[derive(Debug)]
pub struct InstanceLockfile {
    minecraft_version: Option<String>,
    loader: Loader,
    loader_version: Option<String>,
    packages: Vec<(String, LockfilePackage)>,
    configured_packages: Vec<String>,
    addons: Vec<LockfileAddon>,
    modpack: Option<LockfileModpack>,
    path: String,
}

impl View for InstanceLockfile {
    type V = SLockfile;

    closed spec fn view(&self) -> SLockfile {
        SLockfile {
            minecraft_version: opt_str_view(self.minecraft_version),
            loader: self.loader,
            loader_version: opt_str_view(self.loader_version),
            packages: packages_view(self.packages@),
            configured_packages: self.configured_packages.deep_view(),
            addons: addons_view(self.addons@),
            modpack: opt_modpack_view(self.modpack),
            path: self.path@,
        }
    }
}

/// No package ID occurs twice.
pub open spec fn keys_unique(p: Seq<(Seq<char>, Option<Seq<char>>)>) -> bool {
    forall|i: int, j: int| 0 <= i < j < p.len() ==> p[i].0 != p[j].0
}

/// The index of the last entry with the given package ID, or -1.
pub open spec fn key_index(p: Seq<(Seq<char>, Option<Seq<char>>)>, key: Seq<char>) -> int
    decreases p.len(),
{
    if p.len() == 0 {
        -1
    } else if p.last().0 == key {
        p.len() - 1
    } else {
        key_index(p.drop_last(), key)
    }
}

/// The content version recorded for a package, if the package is recorded.
pub open spec fn spec_package(p: Seq<(Seq<char>, Option<Seq<char>>)>, key: Seq<char>) -> Option<
    Option<Seq<char>>,
> {
    let i = key_index(p, key);
    if i >= 0 {
        Some(p[i].1)
    } else {
        None
    }
}

/// The packages with the given package's content version set: in place where it is
/// recorded, at the end where it is not.
pub open spec fn spec_set_package(
    p: Seq<(Seq<char>, Option<Seq<char>>)>,
    key: Seq<char>,
    v: Option<Seq<char>>,
) -> Seq<(Seq<char>, Option<Seq<char>>)> {
    let i = key_index(p, key);
    if i >= 0 {
        p.update(i, (key, v))
    } else {
        p.push((key, v))
    }
}

pub proof fn lemma_key_index(p: Seq<(Seq<char>, Option<Seq<char>>)>, key: Seq<char>)
    ensures
        -1 <= key_index(p, key) < p.len(),
        key_index(p, key) >= 0 ==> p[key_index(p, key)].0 == key,
        key_index(p, key) == -1 <==> (forall|j: int| 0 <= j < p.len() ==> p[j].0 != key),
        keys_unique(p) ==> forall|j: int| 0 <= j < p.len() && p[j].0 == key ==> key_index(p, key) == j,
    decreases p.len(),
{
    if p.len() > 0 {
        lemma_key_index(p.drop_last(), key);
        if p.last().0 != key {
            assert forall|j: int| 0 <= j < p.len() - 1 implies p[j] == p.drop_last()[j] by {}
            if keys_unique(p) {
                assert(keys_unique(p.drop_last()));
            }
        }
    }
}

proof fn lemma_set_package_unique(p: Seq<(Seq<char>, Option<Seq<char>>)>, key: Seq<char>, v: Option<Seq<char>>)
    requires
        keys_unique(p),
    ensures
        keys_unique(spec_set_package(p, key, v)),
        key_index(spec_set_package(p, key, v), key) >= 0,
        spec_package(spec_set_package(p, key, v), key) == Some(v),
{
    lemma_key_index(p, key);
    let q = spec_set_package(p, key, v);
    assert(keys_unique(q));
    lemma_key_index(q, key);
    if key_index(p, key) >= 0 {
        assert(q[key_index(p, key)].0 == key);
    } else {
        assert(q[p.len() as int].0 == key);
    }
}

/// Whether some addon in the list has the given ID (two missing IDs count as equal).
pub open spec fn has_id(s: Seq<SLockAddon>, id: Option<Seq<char>>) -> bool {
    exists|j: int| 0 <= j < s.len() && s[j].id == id
}

/// The files of the package's addons that are no longer among the requested addons, in order.
pub open spec fn spec_removed_files(old: Seq<SLockAddon>, req: Seq<char>, new: Seq<SLockAddon>) -> Seq<
    Seq<char>,
>
    decreases old.len(),
{
    if old.len() == 0 {
        Seq::empty()
    } else {
        let a = old.last();
        spec_removed_files(old.drop_last(), req, new) + if spec_is_from_package(a, req) && !has_id(
            new,
            a.id,
        ) {
            a.files
        } else {
            Seq::empty()
        }
    }
}

/// The first addon of the list that is the given addon of the given package.
pub open spec fn first_package_addon(s: Seq<SLockAddon>, req: Seq<char>, id: Seq<char>) -> Option<
    SLockAddon,
>
    decreases s.len(),
{
    if s.len() == 0 {
        None
    } else {
        match first_package_addon(s.drop_last(), req, id) {
            Some(a) => Some(a),
            None => if spec_is_package_addon(s.last(), req, id) {
                Some(s.last())
            } else {
                None
            },
        }
    }
}

/// The files of `files` that are not in `keep`, in order.
pub open spec fn files_without(files: Seq<Seq<char>>, keep: Seq<Seq<char>>) -> Seq<Seq<char>>
    decreases files.len(),
{
    if files.len() == 0 {
        Seq::empty()
    } else {
        files_without(files.drop_last(), keep) + if keep.contains(files.last()) {
            Seq::empty()
        } else {
            seq![files.last()]
        }
    }
}

/// For each requested addon with an ID, in order, the files that its current version in
/// the package has and the requested version does not.
pub open spec fn spec_changed_files(
    old: Seq<SLockAddon>,
    req: Seq<char>,
    requested: Seq<SLockAddon>,
) -> Seq<Seq<char>>
    decreases requested.len(),
{
    if requested.len() == 0 {
        Seq::empty()
    } else {
        let r = requested.last();
        spec_changed_files(old, req, requested.drop_last()) + match r.id {
            Some(id) => match first_package_addon(old, req, id) {
                Some(c) => files_without(c.files, r.files),
                None => Seq::empty(),
            },
            None => Seq::empty(),
        }
    }
}

/// The addons that do not come from the given package, in order.
pub open spec fn addons_not_from(s: Seq<SLockAddon>, req: Seq<char>) -> Seq<SLockAddon>
    decreases s.len(),
{
    if s.len() == 0 {
        Seq::empty()
    } else {
        addons_not_from(s.drop_last(), req) + if spec_is_from_package(s.last(), req) {
            Seq::empty()
        } else {
            seq![s.last()]
        }
    }
}

/// The lockfile after a package is updated to the given addons and content version.
pub open spec fn spec_update_package(
    l: SLockfile,
    req: Seq<char>,
    addons: Seq<SLockAddon>,
    content_version: Option<Seq<char>>,
) -> SLockfile {
    SLockfile {
        packages: spec_set_package(l.packages, req, content_version),
        addons: addons_not_from(l.addons, req) + addons,
        ..l
    }
}

/// The files to remove when a package is updated to the given addons.
pub open spec fn spec_update_package_files(
    l: SLockfile,
    req: Seq<char>,
    addons: Seq<SLockAddon>,
) -> Seq<Seq<char>> {
    spec_removed_files(l.addons, req, addons) + spec_changed_files(l.addons, req, addons)
}

proof fn lemma_first_package_addon_prefix(s: Seq<SLockAddon>, n: int, req: Seq<char>, id: Seq<char>)
    requires
        0 <= n <= s.len(),
        first_package_addon(s.take(n), req, id) is Some,
    ensures
        first_package_addon(s, req, id) == first_package_addon(s.take(n), req, id),
    decreases s.len() - n,
{
    if n < s.len() {
        assert(s.take(n + 1).drop_last() =~= s.take(n));
        lemma_first_package_addon_prefix(s, n + 1, req, id);
    } else {
        assert(s.take(n) =~= s);
    }
}

/// Whether some addon of the list has the given ID.
fn any_has_id(addons: &[LockfileAddon], id: &Option<String>) -> (r: bool)
    ensures
        r == has_id(addons_view(addons@), opt_str_view(*id)),
{
    let mut i: usize = 0;
    while i < addons.len()
        invariant
            i <= addons@.len(),
            forall|j: int| 0 <= j < i ==> addons_view(addons@)[j].id != opt_str_view(*id),
        decreases addons@.len() - i,
    {
        if opt_str_eq(&addons[i].id, id) {
            proof {
                assert(addons_view(addons@)[i as int].id == opt_str_view(*id));
            }
            return true;
        }
        i = i + 1;
    }
    false
}

/// The index of the first addon that is the given addon of the given package.
fn find_package_addon(addons: &Vec<LockfileAddon>, req: &str, id: &str) -> (r: Option<usize>)
    ensures
        match r {
            Some(k) => k < addons@.len() && first_package_addon(addons_view(addons@), req@, id@)
                == Some(addons@[k as int]@),
            None => first_package_addon(addons_view(addons@), req@, id@) is None,
        },
{
    let ghost s = addons_view(addons@);
    let mut i: usize = 0;
    while i < addons.len()
        invariant
            i <= addons@.len(),
            s == addons_view(addons@),
            first_package_addon(s.take(i as int), req@, id@) is None,
        decreases addons@.len() - i,
    {
        proof {
            assert(s.take(i + 1).drop_last() =~= s.take(i as int));
        }
        if addons[i].is_package_addon(req, id) {
            proof {
                lemma_first_package_addon_prefix(s, i + 1, req@, id@);
            }
            return Some(i);
        }
        i = i + 1;
    }
    proof {
        assert(s.take(addons@.len() as int) =~= s);
    }
    None
}

/// Appends the files of `files` that are not in `keep`.
fn push_files_without(out: &mut Vec<String>, files: &Vec<String>, keep: &Vec<String>)
    ensures
        final(out).deep_view() == old(out).deep_view() + files_without(
            files.deep_view(),
            keep.deep_view(),
        ),
{
    let ghost start = out.deep_view();
    let ghost fs = files.deep_view();
    let mut i: usize = 0;
    while i < files.len()
        invariant
            i <= files@.len(),
            fs == files.deep_view(),
            out.deep_view() == start + files_without(fs.take(i as int), keep.deep_view()),
        decreases files@.len() - i,
    {
        proof {
            assert(fs.take(i + 1).drop_last() =~= fs.take(i as int));
        }
        let ghost pre = out.deep_view();
        if !strings_contain(keep, files[i].as_str()) {
            out.push(files[i].clone());
            proof {
                assert(out.deep_view() =~= pre.push(fs[i as int]));
            }
        }
        proof {
            assert(out.deep_view() =~= start + files_without(fs.take(i + 1), keep.deep_view()));
        }
        i = i + 1;
    }
    proof {
        assert(fs.take(files@.len() as int) =~= fs);
    }
}

/// The lockfile well-formedness: no package is recorded twice.
pub open spec fn lock_wf(l: SLockfile) -> bool {
    keys_unique(l.packages)
}

impl InstanceLockfile {
    /// An empty lockfile that will be stored at the given path
    pub fn new(path: String) -> (r: InstanceLockfile)
        ensures
            lock_wf(r@),
            r@ == (SLockfile {
                minecraft_version: None,
                loader: Loader::Vanilla,
                loader_version: None,
                packages: Seq::empty(),
                configured_packages: Seq::empty(),
                addons: Seq::empty(),
                modpack: None,
                path: path@,
            }),
    {
        let r = InstanceLockfile {
            minecraft_version: None,
            loader: Loader::Vanilla,
            loader_version: None,
            packages: Vec::new(),
            configured_packages: Vec::new(),
            addons: Vec::new(),
            modpack: None,
            path,
        };
        proof {
            assert(packages_view(r.packages@) =~= Seq::empty());
            assert(r.configured_packages.deep_view() =~= Seq::<Seq<char>>::empty());
            assert(addons_view(r.addons@) =~= Seq::empty());
        }
        r
    }

    /// Get the path to the lockfile
    pub fn get_path(inst_dir: Option<&str>, instance_id: &str, internal_dir: &str) -> (r: String)
        ensures
            r@ == match inst_dir {
                Some(d) => crate::paths::spec_join(d@, "nitro_lock.json"@),
                None => crate::paths::spec_join(
                    crate::paths::spec_join(internal_dir@, "lock/instances"@),
                    instance_id@ + ".json"@,
                ),
            },
    {
        match inst_dir {
            Some(d) => join_path(d, "nitro_lock.json"),
            None => {
                let base = join_path(internal_dir, "lock/instances");
                let mut name = owned(instance_id);
                crate::text::string_push_str(&mut name, ".json");
                join_path(base.as_str(), name.as_str())
            },
        }
    }

    /// The path that the lockfile is stored at
    pub fn path(&self) -> (r: &String)
        ensures
            r@ == self@.path,
    {
        &self.path
    }

    /// The index of the given package in the package list, if it is recorded.
    fn find_package(&self, req: &str) -> (r: Option<usize>)
        requires
            lock_wf(self@),
        ensures
            r matches Some(i) ==> i == key_index(self@.packages, req@) && i < self.packages@.len(),
            r is None ==> key_index(self@.packages, req@) == -1,
    {
        let ghost p = self@.packages;
        proof {
            lemma_key_index(p, req@);
        }
        let mut i: usize = 0;
        while i < self.packages.len()
            invariant
                i <= self.packages@.len(),
                p == packages_view(self.packages@),
                keys_unique(p),
                -1 <= key_index(p, req@) < p.len(),
                key_index(p, req@) >= 0 ==> p[key_index(p, req@)].0 == req@,
                key_index(p, req@) == -1 <==> (forall|j: int| 0 <= j < p.len() ==> p[j].0 != req@),
                forall|j: int| 0 <= j < p.len() && p[j].0 == req@ ==> key_index(p, req@) == j,
                forall|j: int| 0 <= j < i ==> p[j].0 != req@,
            decreases self.packages@.len() - i,
        {
            if str_eq(self.packages[i].0.as_str(), req) {
                proof {
                    assert(p[i as int].0 == req@);
                }
                return Some(i);
            }
            i = i + 1;
        }
        None
    }

    /// The content version recorded for a package, if the package is recorded
    pub fn get_package(&self, req: &str) -> (r: Option<&LockfilePackage>)
        requires
            lock_wf(self@),
        ensures
            match r {
                Some(p) => spec_package(self@.packages, req@) == Some(opt_str_view(p.content_version)),
                None => spec_package(self@.packages, req@) is None,
            },
    {
        match self.find_package(req) {
            Some(i) => Some(&self.packages[i].1),
            None => None,
        }
    }

    /// Updates a package with a new version.
    /// Returns a list of files to be removed
    pub fn update_package(
        &mut self,
        req: &str,
        addons: &[LockfileAddon],
        content_version: Option<String>,
    ) -> (r: Vec<String>)
        requires
            lock_wf(old(self)@),
        ensures
            lock_wf(final(self)@),
            final(self)@ == spec_update_package(
                old(self)@,
                req@,
                addons_view(addons@),
                opt_str_view(content_version),
            ),
            r.deep_view() == spec_update_package_files(old(self)@, req@, addons_view(addons@)),
    {
        let ghost old_addons = addons_view(self.addons@);
        let ghost requested = addons_view(addons@);
        let mut files_to_remove: Vec<String> = Vec::new();
        proof {
            assert(files_to_remove.deep_view() =~= Seq::<Seq<char>>::empty());
        }

        // Files of the package's addons that are not requested anymore
        let mut i: usize = 0;
        while i < self.addons.len()
            invariant
                i <= self.addons@.len(),
                old_addons == addons_view(self.addons@),
                requested == addons_view(addons@),
                files_to_remove.deep_view() == spec_removed_files(old_addons.take(i as int), req@, requested),
            decreases self.addons@.len() - i,
        {
            proof {
                assert(old_addons.take(i + 1).drop_last() =~= old_addons.take(i as int));
            }
            let a = &self.addons[i];
            if a.is_from_package(req) && !any_has_id(addons, &a.id) {
                append_strings(&mut files_to_remove, &a.files);
            }
            proof {
                assert(files_to_remove.deep_view() =~= spec_removed_files(old_addons.take(i + 1), req@, requested));
            }
            i = i + 1;
        }
        proof {
            assert(old_addons.take(self.addons@.len() as int) =~= old_addons);
        }

        // Files that the requested versions of the package's addons no longer have
        let ghost removed = files_to_remove.deep_view();
        let mut j: usize = 0;
        while j < addons.len()
            invariant
                j <= addons@.len(),
                old_addons == addons_view(self.addons@),
                requested == addons_view(addons@),
                files_to_remove.deep_view() == removed + spec_changed_files(
                    old_addons,
                    req@,
                    requested.take(j as int),
                ),
            decreases addons@.len() - j,
        {
            proof {
                assert(requested.take(j + 1).drop_last() =~= requested.take(j as int));
            }
            let ghost before = files_to_remove.deep_view();
            match &addons[j].id {
                Some(addon_id) => {
                    match find_package_addon(&self.addons, req, addon_id.as_str()) {
                        Some(k) => {
                            push_files_without(&mut files_to_remove, &self.addons[k].files, &addons[j].files);
                        },
                        None => {},
                    }
                },
                None => {},
            }
            proof {
                assert(files_to_remove.deep_view() =~= removed + spec_changed_files(
                    old_addons,
                    req@,
                    requested.take(j + 1),
                ));
            }
            j = j + 1;
        }
        proof {
            assert(requested.take(addons@.len() as int) =~= requested);
        }

        // The addons that stay, then the requested ones
        let mut new_addons: Vec<LockfileAddon> = Vec::new();
        let mut k: usize = 0;
        while k < self.addons.len()
            invariant
                k <= self.addons@.len(),
                old_addons == addons_view(self.addons@),
                addons_view(new_addons@) == addons_not_from(old_addons.take(k as int), req@),
            decreases self.addons@.len() - k,
        {
            proof {
                assert(old_addons.take(k + 1).drop_last() =~= old_addons.take(k as int));
            }
            let ghost pre = addons_view(new_addons@);
            if !self.addons[k].is_from_package(req) {
                new_addons.push(self.addons[k].duplicate());
                proof {
                    assert(addons_view(new_addons@) =~= pre.push(old_addons[k as int]));
                }
            }
            proof {
                assert(addons_view(new_addons@) =~= addons_not_from(old_addons.take(k + 1), req@));
            }
            k = k + 1;
        }
        proof {
            assert(old_addons.take(self.addons@.len() as int) =~= old_addons);
        }
        let ghost kept = addons_view(new_addons@);
        let mut m: usize = 0;
        while m < addons.len()
            invariant
                m <= addons@.len(),
                requested == addons_view(addons@),
                addons_view(new_addons@) == kept + requested.take(m as int),
            decreases addons@.len() - m,
        {
            let ghost pre = addons_view(new_addons@);
            new_addons.push(addons[m].duplicate());
            proof {
                assert(addons_view(new_addons@) =~= pre.push(requested[m as int]));
                assert(requested.take(m + 1) =~= requested.take(m as int).push(requested[m as int]));
            }
            m = m + 1;
        }
        proof {
            assert(requested.take(addons@.len() as int) =~= requested);
        }
        self.addons = new_addons;

        // Update the package
        self.set_package(req, content_version);
        files_to_remove
    }
}

/// The packages after setting each given package in turn.
pub open spec fn spec_set_all(
    acc: Seq<(Seq<char>, Option<Seq<char>>)>,
    ps: Seq<(Seq<char>, Option<Seq<char>>)>,
) -> Seq<(Seq<char>, Option<Seq<char>>)>
    decreases ps.len(),
{
    if ps.len() == 0 {
        acc
    } else {
        spec_set_package(spec_set_all(acc, ps.drop_last()), ps.last().0, ps.last().1)
    }
}

/// The IDs of the packages that are not in `used`, in order.
pub open spec fn unused_keys(p: Seq<(Seq<char>, Option<Seq<char>>)>, used: Seq<Seq<char>>) -> Seq<
    Seq<char>,
>
    decreases p.len(),
{
    if p.len() == 0 {
        Seq::empty()
    } else {
        unused_keys(p.drop_last(), used) + if used.contains(p.last().0) {
            Seq::empty()
        } else {
            seq![p.last().0]
        }
    }
}

/// The packages whose IDs are in `used`, in order.
pub open spec fn packages_in(p: Seq<(Seq<char>, Option<Seq<char>>)>, used: Seq<Seq<char>>) -> Seq<
    (Seq<char>, Option<Seq<char>>),
>
    decreases p.len(),
{
    if p.len() == 0 {
        Seq::empty()
    } else {
        packages_in(p.drop_last(), used) + if used.contains(p.last().0) {
            seq![p.last()]
        } else {
            Seq::empty()
        }
    }
}

/// The installed addons that the addons of the given package stand for, in order.
pub open spec fn addons_of(addons: Seq<SLockAddon>, pkg: Seq<char>) -> Seq<SAddon>
    decreases addons.len(),
{
    if addons.len() == 0 {
        Seq::empty()
    } else {
        addons_of(addons.drop_last(), pkg) + if spec_is_from_package(addons.last(), pkg) {
            seq![spec_to_addon(addons.last())]
        } else {
            Seq::empty()
        }
    }
}

/// The installed addons of each of the given packages, package by package.
pub open spec fn addons_of_all(addons: Seq<SLockAddon>, pkgs: Seq<Seq<char>>) -> Seq<SAddon>
    decreases pkgs.len(),
{
    if pkgs.len() == 0 {
        Seq::empty()
    } else {
        addons_of_all(addons, pkgs.drop_last()) + addons_of(addons, pkgs.last())
    }
}

/// The mathematical value of a list of installed addons.
pub open spec fn installed_view(v: Seq<Addon>) -> Seq<SAddon> {
    v.map_values(|a: Addon| a@)
}

/// Whether one of the addons has the given file.
pub open spec fn in_any_files(new: Seq<SLockAddon>, f: Seq<char>) -> bool {
    exists|j: int| 0 <= j < new.len() && new[j].files.contains(f)
}

/// The files that none of the addons has, in order.
pub open spec fn files_not_in_any(files: Seq<Seq<char>>, new: Seq<SLockAddon>) -> Seq<Seq<char>>
    decreases files.len(),
{
    if files.len() == 0 {
        Seq::empty()
    } else {
        files_not_in_any(files.drop_last(), new) + if in_any_files(new, files.last()) {
            Seq::empty()
        } else {
            seq![files.last()]
        }
    }
}

/// The files of the old modpack addons that none of the new addons has, in order.
pub open spec fn modpack_removed_files(old: Seq<SLockAddon>, new: Seq<SLockAddon>) -> Seq<Seq<char>>
    decreases old.len(),
{
    if old.len() == 0 {
        Seq::empty()
    } else {
        modpack_removed_files(old.drop_last(), new) + if old.last().from_modpack {
            files_not_in_any(old.last().files, new)
        } else {
            Seq::empty()
        }
    }
}

/// The addons that do not come from a modpack, in order.
pub open spec fn addons_not_modpack(s: Seq<SLockAddon>) -> Seq<SLockAddon>
    decreases s.len(),
{
    if s.len() == 0 {
        Seq::empty()
    } else {
        addons_not_modpack(s.drop_last()) + if s.last().from_modpack {
            Seq::empty()
        } else {
            seq![s.last()]
        }
    }
}

proof fn lemma_packages_in(p: Seq<(Seq<char>, Option<Seq<char>>)>, used: Seq<Seq<char>>)
    ensures
        forall|i: int|
            0 <= i < packages_in(p, used).len() ==> exists|j: int|
                0 <= j < p.len() && p[j] == #[trigger] packages_in(p, used)[i],
        keys_unique(p) ==> keys_unique(packages_in(p, used)),
    decreases p.len(),
{
    if p.len() > 0 {
        let q = p.drop_last();
        lemma_packages_in(q, used);
        let pq = packages_in(q, used);
        let pp = packages_in(p, used);
        assert forall|i: int| 0 <= i < pp.len() implies exists|j: int|
            0 <= j < p.len() && p[j] == #[trigger] pp[i] by {
            if i < pq.len() {
                assert(pp[i] == pq[i]);
                let j = choose|j: int| 0 <= j < q.len() && q[j] == pq[i];
                assert(p[j] == pp[i]);
            } else {
                assert(p[p.len() - 1] == pp[i]);
            }
        }
        if keys_unique(p) {
            assert(keys_unique(q));
            assert forall|a: int, b: int| 0 <= a < b < pp.len() implies pp[a].0 != pp[b].0 by {
                if b < pq.len() {
                    assert(pp[a] == pq[a] && pp[b] == pq[b]);
                } else {
                    assert(pp[a] == pq[a]);
                    let j = choose|j: int| 0 <= j < q.len() && q[j] == pq[a];
                    assert(p[j] == pp[a]);
                    assert(pp[b] == p.last());
                }
            }
        }
    }
}

impl InstanceLockfile {
    /// Sets the content version of a package, adding the package where it is not recorded.
    fn set_package(&mut self, req: &str, content_version: Option<String>)
        requires
            lock_wf(old(self)@),
        ensures
            lock_wf(final(self)@),
            final(self)@ == (SLockfile {
                packages: spec_set_package(old(self)@.packages, req@, opt_str_view(content_version)),
                ..old(self)@
            }),
    {
        let ghost old_packages = self@.packages;
        let ghost cv = opt_str_view(content_version);
        proof {
            lemma_set_package_unique(old_packages, req@, cv);
            lemma_key_index(old_packages, req@);
        }
        match self.find_package(req) {
            Some(idx) => {
                let key = self.packages[idx].0.clone();
                self.packages.set(idx, (key, LockfilePackage { content_version }));
                proof {
                    assert(packages_view(self.packages@) =~= old_packages.update(idx as int, (req@, cv)));
                }
            },
            None => {
                self.packages.push((owned(req), LockfilePackage { content_version }));
                proof {
                    assert(packages_view(self.packages@) =~= old_packages.push((req@, cv)));
                }
            },
        }
    }

    /// A lockfile with the given contents; where a package is given twice, the later entry
    /// counts
    pub fn from_parts(
        minecraft_version: Option<String>,
        loader: Loader,
        loader_version: Option<String>,
        packages: Vec<(String, LockfilePackage)>,
        configured_packages: Vec<String>,
        addons: Vec<LockfileAddon>,
        modpack: Option<LockfileModpack>,
        path: String,
    ) -> (r: InstanceLockfile)
        ensures
            lock_wf(r@),
            r@ == (SLockfile {
                minecraft_version: opt_str_view(minecraft_version),
                loader,
                loader_version: opt_str_view(loader_version),
                packages: spec_set_all(Seq::empty(), packages_view(packages@)),
                configured_packages: configured_packages.deep_view(),
                addons: addons_view(addons@),
                modpack: opt_modpack_view(modpack),
                path: path@,
            }),
    {
        let mut out = InstanceLockfile {
            minecraft_version,
            loader,
            loader_version,
            packages: Vec::new(),
            configured_packages,
            addons,
            modpack,
            path,
        };
        let ghost ps = packages_view(packages@);
        proof {
            assert(packages_view(out.packages@) =~= Seq::empty());
            assert(ps.take(0) =~= Seq::empty());
        }
        let mut i: usize = 0;
        while i < packages.len()
            invariant
                i <= packages@.len(),
                ps == packages_view(packages@),
                lock_wf(out@),
                out@.packages == spec_set_all(Seq::empty(), ps.take(i as int)),
                out@.minecraft_version == opt_str_view(minecraft_version),
                out@.loader == loader,
                out@.loader_version == opt_str_view(loader_version),
                out@.configured_packages == configured_packages.deep_view(),
                out@.addons == addons_view(addons@),
                out@.modpack == opt_modpack_view(modpack),
                out@.path == path@,
            decreases packages@.len() - i,
        {
            proof {
                assert(ps.take(i + 1).drop_last() =~= ps.take(i as int));
            }
            let cv = opt_string_copy(&packages[i].1.content_version);
            out.set_package(packages[i].0.as_str(), cv);
            i = i + 1;
        }
        proof {
            assert(ps.take(packages@.len() as int) =~= ps);
        }
        out
    }

    /// Remove any unused packages for an instance.
    /// Returns any addons that need to be removed from the instance.
    pub fn remove_unused_packages(&mut self, used_packages: &[String]) -> (r: Vec<Addon>)
        requires
            lock_wf(old(self)@),
        ensures
            lock_wf(final(self)@),
            final(self)@ == (SLockfile {
                packages: packages_in(old(self)@.packages, crate::text::strs_view(used_packages@)),
                ..old(self)@
            }),
            installed_view(r@) == addons_of_all(
                old(self)@.addons,
                unused_keys(old(self)@.packages, crate::text::strs_view(used_packages@)),
            ),
    {
        let ghost used = crate::text::strs_view(used_packages@);
        let ghost p = self@.packages;
        let ghost la = self@.addons;
        let mut pkgs_to_remove: Vec<String> = Vec::new();
        let mut kept: Vec<(String, LockfilePackage)> = Vec::new();
        proof {
            assert(pkgs_to_remove.deep_view() =~= Seq::<Seq<char>>::empty());
            assert(packages_view(kept@) =~= Seq::empty());
        }
        let mut i: usize = 0;
        while i < self.packages.len()
            invariant
                i <= self.packages@.len(),
                p == packages_view(self.packages@),
                used == crate::text::strs_view(used_packages@),
                pkgs_to_remove.deep_view() == unused_keys(p.take(i as int), used),
                packages_view(kept@) == packages_in(p.take(i as int), used),
            decreases self.packages@.len() - i,
        {
            proof {
                assert(p.take(i + 1).drop_last() =~= p.take(i as int));
            }
            let ghost pre_r = pkgs_to_remove.deep_view();
            let ghost pre_k = packages_view(kept@);
            if crate::text::slice_contains_str(used_packages, self.packages[i].0.as_str()) {
                let key = self.packages[i].0.clone();
                let cv = opt_string_copy(&self.packages[i].1.content_version);
                kept.push((key, LockfilePackage { content_version: cv }));
                proof {
                    assert(packages_view(kept@) =~= pre_k.push(p[i as int]));
                }
            } else {
                pkgs_to_remove.push(self.packages[i].0.clone());
                proof {
                    assert(pkgs_to_remove.deep_view() =~= pre_r.push(p[i as int].0));
                }
            }
            proof {
                assert(pkgs_to_remove.deep_view() =~= unused_keys(p.take(i + 1), used));
                assert(packages_view(kept@) =~= packages_in(p.take(i + 1), used));
            }
            i = i + 1;
        }
        proof {
            assert(p.take(self.packages@.len() as int) =~= p);
            lemma_packages_in(p, used);
        }
        self.packages = kept;

        let ghost keys = pkgs_to_remove.deep_view();
        let mut addons_to_remove: Vec<Addon> = Vec::new();
        proof {
            assert(installed_view(addons_to_remove@) =~= Seq::empty());
        }
        let mut j: usize = 0;
        while j < pkgs_to_remove.len()
            invariant
                j <= pkgs_to_remove@.len(),
                keys == pkgs_to_remove.deep_view(),
                la == addons_view(self.addons@),
                installed_view(addons_to_remove@) == addons_of_all(la, keys.take(j as int)),
            decreases pkgs_to_remove@.len() - j,
        {
            proof {
                assert(keys.take(j + 1).drop_last() =~= keys.take(j as int));
            }
            let ghost base = installed_view(addons_to_remove@);
            let pkg_id = pkgs_to_remove[j].as_str();
            let mut k: usize = 0;
            while k < self.addons.len()
                invariant
                    k <= self.addons@.len(),
                    la == addons_view(self.addons@),
                    pkg_id@ == keys[j as int],
                    installed_view(addons_to_remove@) == base + addons_of(la.take(k as int), pkg_id@),
                decreases self.addons@.len() - k,
            {
                proof {
                    assert(la.take(k + 1).drop_last() =~= la.take(k as int));
                }
                let ghost pre = installed_view(addons_to_remove@);
                if self.addons[k].is_from_package(pkg_id) {
                    addons_to_remove.push(self.addons[k].to_addon());
                    proof {
                        assert(installed_view(addons_to_remove@) =~= pre.push(spec_to_addon(la[k as int])));
                    }
                }
                proof {
                    assert(installed_view(addons_to_remove@) =~= base + addons_of(la.take(k + 1), pkg_id@));
                }
                k = k + 1;
            }
            proof {
                assert(la.take(self.addons@.len() as int) =~= la);
                assert(installed_view(addons_to_remove@) =~= addons_of_all(la, keys.take(j + 1)));
            }
            j = j + 1;
        }
        proof {
            assert(keys.take(pkgs_to_remove@.len() as int) =~= keys);
        }
        addons_to_remove
    }

    /// Updates the locked modpack and it's addons. Returns a list of files to remove
    pub fn update_modpack(&mut self, modpack: LockfileModpack, addons: &[LockfileAddon]) -> (r: Vec<
        String,
    >)
        requires
            lock_wf(old(self)@),
        ensures
            lock_wf(final(self)@),
            final(self)@ == (SLockfile {
                modpack: Some(modpack@),
                addons: addons_not_modpack(old(self)@.addons) + addons_view(addons@),
                ..old(self)@
            }),
            r.deep_view() == modpack_removed_files(old(self)@.addons, addons_view(addons@)),
    {
        let ghost la = self@.addons;
        let ghost new = addons_view(addons@);
        let ghost mv = modpack@;
        self.modpack = Some(modpack);
        let mut files_to_remove: Vec<String> = Vec::new();
        let mut kept: Vec<LockfileAddon> = Vec::new();
        proof {
            assert(files_to_remove.deep_view() =~= Seq::<Seq<char>>::empty());
            assert(addons_view(kept@) =~= Seq::empty());
        }
        let mut i: usize = 0;
        while i < self.addons.len()
            invariant
                i <= self.addons@.len(),
                la == addons_view(self.addons@),
                new == addons_view(addons@),
                files_to_remove.deep_view() == modpack_removed_files(la.take(i as int), new),
                addons_view(kept@) == addons_not_modpack(la.take(i as int)),
            decreases self.addons@.len() - i,
        {
            proof {
                assert(la.take(i + 1).drop_last() =~= la.take(i as int));
            }
            let x = &self.addons[i];
            let ghost pre_k = addons_view(kept@);
            if x.from_modpack {
                let ghost start = files_to_remove.deep_view();
                let ghost fs = x.files.deep_view();
                let mut f: usize = 0;
                while f < x.files.len()
                    invariant
                        f <= x.files@.len(),
                        fs == x.files.deep_view(),
                        new == addons_view(addons@),
                        files_to_remove.deep_view() == start + files_not_in_any(fs.take(f as int), new),
                    decreases x.files@.len() - f,
                {
                    proof {
                        assert(fs.take(f + 1).drop_last() =~= fs.take(f as int));
                    }
                    let ghost pre = files_to_remove.deep_view();
                    if !any_has_file(addons, x.files[f].as_str()) {
                        files_to_remove.push(x.files[f].clone());
                        proof {
                            assert(files_to_remove.deep_view() =~= pre.push(fs[f as int]));
                        }
                    }
                    proof {
                        assert(files_to_remove.deep_view() =~= start + files_not_in_any(fs.take(f + 1), new));
                    }
                    f = f + 1;
                }
                proof {
                    assert(fs.take(x.files@.len() as int) =~= fs);
                }
            } else {
                kept.push(x.duplicate());
                proof {
                    assert(addons_view(kept@) =~= pre_k.push(la[i as int]));
                }
            }
            proof {
                assert(files_to_remove.deep_view() =~= modpack_removed_files(la.take(i + 1), new));
                assert(addons_view(kept@) =~= addons_not_modpack(la.take(i + 1)));
            }
            i = i + 1;
        }
        proof {
            assert(la.take(self.addons@.len() as int) =~= la);
        }
        let ghost base = addons_view(kept@);
        let mut m: usize = 0;
        while m < addons.len()
            invariant
                m <= addons@.len(),
                new == addons_view(addons@),
                addons_view(kept@) == base + new.take(m as int),
            decreases addons@.len() - m,
        {
            let ghost pre = addons_view(kept@);
            kept.push(addons[m].duplicate());
            proof {
                assert(addons_view(kept@) =~= pre.push(new[m as int]));
                assert(new.take(m + 1) =~= new.take(m as int).push(new[m as int]));
            }
            m = m + 1;
        }
        proof {
            assert(new.take(addons@.len() as int) =~= new);
        }
        self.addons = kept;
        files_to_remove
    }

    /// Gets the current Minecraft version
    pub fn get_minecraft_version(&self) -> (r: Option<&String>)
        ensures
            match r {
                Some(s) => self@.minecraft_version == Some(s@),
                None => self@.minecraft_version is None,
            },
    {
        self.minecraft_version.as_ref()
    }

    /// Gets the current loader
    pub fn get_loader(&self) -> (r: &Loader)
        ensures
            *r == self@.loader,
    {
        &self.loader
    }

    /// Gets the current loader version
    pub fn get_loader_version(&self) -> (r: Option<&String>)
        ensures
            match r {
                Some(s) => self@.loader_version == Some(s@),
                None => self@.loader_version is None,
            },
    {
        self.loader_version.as_ref()
    }

    /// Updates the Minecraft version
    pub fn update_minecraft_version(&mut self, version: &str)
        requires
            lock_wf(old(self)@),
        ensures
            lock_wf(final(self)@),
            final(self)@ == (SLockfile { minecraft_version: Some(version@), ..old(self)@ }),
    {
        self.minecraft_version = Some(owned(version));
    }

    /// Updates the loader
    pub fn update_loader(&mut self, loader: Loader)
        requires
            lock_wf(old(self)@),
        ensures
            lock_wf(final(self)@),
            final(self)@ == (SLockfile { loader, ..old(self)@ }),
    {
        self.loader = loader;
    }

    /// Updates the loader version
    pub fn update_loader_version(&mut self, version: Option<String>)
        requires
            lock_wf(old(self)@),
        ensures
            lock_wf(final(self)@),
            final(self)@ == (SLockfile { loader_version: opt_str_view(version), ..old(self)@ }),
    {
        self.loader_version = version;
    }

    /// Updates the configured packages for the instance. Should be called after packages are installed.
    pub fn update_configured_packages(&mut self, packages: Vec<String>)
        requires
            lock_wf(old(self)@),
        ensures
            lock_wf(final(self)@),
            final(self)@ == (SLockfile { configured_packages: packages.deep_view(), ..old(self)@ }),
    {
        self.configured_packages = packages;
    }

    /// Get the locked addons
    pub fn get_addons(&self) -> (r: &Vec<LockfileAddon>)
        ensures
            addons_view(r@) == self@.addons,
    {
        &self.addons
    }

    /// Get the locked packages, by ID with their content versions
    pub fn get_packages(&self) -> (r: &Vec<(String, LockfilePackage)>)
        ensures
            packages_view(r@) == self@.packages,
    {
        &self.packages
    }

    /// Gets the last configured packages when they were installed, for checking for changes in the package configuration
    pub fn get_configured_packages(&self) -> (r: &Vec<String>)
        ensures
            r.deep_view() == self@.configured_packages,
    {
        &self.configured_packages
    }

    /// Get the locked modpack
    pub fn get_modpack(&self) -> (r: Option<&LockfileModpack>)
        ensures
            match r {
                Some(m) => self@.modpack == Some(m@),
                None => self@.modpack is None,
            },
    {
        self.modpack.as_ref()
    }
}

/// Whether one of the addons has the given file.
fn any_has_file(addons: &[LockfileAddon], f: &str) -> (r: bool)
    ensures
        r == in_any_files(addons_view(addons@), f@),
{
    let mut i: usize = 0;
    while i < addons.len()
        invariant
            i <= addons@.len(),
            forall|j: int| 0 <= j < i ==> !addons_view(addons@)[j].files.contains(f@),
        decreases addons@.len() - i,
    {
        if strings_contain(&addons[i].files, f) {
            proof {
                assert(addons_view(addons@)[i as int].files.contains(f@));
            }
            return true;
        }
        i = i + 1;
    }
    false
}

proof fn lemma_addons_not_from(s: Seq<SLockAddon>, req: Seq<char>)
    ensures
        forall|i: int|
            0 <= i < s.len() && !spec_is_from_package(s[i], req) ==> addons_not_from(
                s,
                req,
            ).contains(s[i]),
        forall|i: int|
            0 <= i < addons_not_from(s, req).len() ==> !spec_is_from_package(
                #[trigger] addons_not_from(s, req)[i],
                req,
            ),
    decreases s.len(),
{
    if s.len() > 0 {
        let q = s.drop_last();
        lemma_addons_not_from(q, req);
        let aq = addons_not_from(q, req);
        let a = addons_not_from(s, req);
        assert forall|i: int| 0 <= i < s.len() && !spec_is_from_package(s[i], req) implies a.contains(
            s[i],
        ) by {
            if i < q.len() {
                assert(q[i] == s[i]);
                let k = choose|k: int| 0 <= k < aq.len() && aq[k] == q[i];
                assert(a[k] == s[i]);
            } else {
                assert(a[a.len() - 1] == s[i]);
            }
        }
        assert forall|i: int| 0 <= i < a.len() implies !spec_is_from_package(#[trigger] a[i], req) by {
            if i < aq.len() {
                assert(a[i] == aq[i]);
            }
        }
    }
}

/// Updating a package records it with the given content version, leaves every other
/// package's record as it was, and keeps the lockfile well-formed.
pub proof fn law_update_package_records_version(
    l: SLockfile,
    req: Seq<char>,
    addons: Seq<SLockAddon>,
    content_version: Option<Seq<char>>,
    other: Seq<char>,
)
    requires
        lock_wf(l),
    ensures
        lock_wf(spec_update_package(l, req, addons, content_version)),
        spec_package(spec_update_package(l, req, addons, content_version).packages, req) == Some(
            content_version,
        ),
        other != req ==> spec_package(
            spec_update_package(l, req, addons, content_version).packages,
            other,
        ) == spec_package(l.packages, other),
{
    lemma_set_package_unique(l.packages, req, content_version);
    let q = spec_set_package(l.packages, req, content_version);
    lemma_key_index(l.packages, other);
    lemma_key_index(q, other);
    lemma_key_index(l.packages, req);
    if other != req {
        if key_index(l.packages, other) >= 0 {
            assert(q[key_index(l.packages, other)].0 == other);
        } else if key_index(q, other) >= 0 {
            assert(q[key_index(q, other)].0 == other);
            assert(l.packages[key_index(q, other)].0 == other);
        }
    }
}

/// Updating a package keeps every addon that does not come from that package; afterwards
/// the package's addons are exactly the requested ones, in order, after all the others.
pub proof fn law_update_package_keeps_other_addons(
    l: SLockfile,
    req: Seq<char>,
    addons: Seq<SLockAddon>,
    content_version: Option<Seq<char>>,
)
    ensures
        forall|i: int|
            0 <= i < l.addons.len() && !spec_is_from_package(l.addons[i], req) ==> spec_update_package(
                l,
                req,
                addons,
                content_version,
            ).addons.contains(l.addons[i]),
        spec_update_package(l, req, addons, content_version).addons == addons_not_from(l.addons, req)
            + addons,
        forall|i: int|
            0 <= i < addons_not_from(l.addons, req).len() ==> !spec_is_from_package(
                #[trigger] addons_not_from(l.addons, req)[i],
                req,
            ),
{
    lemma_addons_not_from(l.addons, req);
    let r = spec_update_package(l, req, addons, content_version).addons;
    let a = addons_not_from(l.addons, req);
    assert forall|i: int| 0 <= i < l.addons.len() && !spec_is_from_package(l.addons[i], req) implies r.contains(
        l.addons[i],
    ) by {
        let k = choose|k: int| 0 <= k < a.len() && a[k] == l.addons[i];
        assert(r[k] == l.addons[i]);
    }
}

proof fn lemma_removed_files_contain(old: Seq<SLockAddon>, req: Seq<char>, new: Seq<SLockAddon>, i: int, f: Seq<char>)
    requires
        0 <= i < old.len(),
        spec_is_from_package(old[i], req),
        !has_id(new, old[i].id),
        old[i].files.contains(f),
    ensures
        spec_removed_files(old, req, new).contains(f),
    decreases old.len(),
{
    let q = old.drop_last();
    let r = spec_removed_files(old, req, new);
    let rq = spec_removed_files(q, req, new);
    if i < q.len() {
        assert(q[i] == old[i]);
        lemma_removed_files_contain(q, req, new, i, f);
        let k = choose|k: int| 0 <= k < rq.len() && rq[k] == f;
        assert(r[k] == f);
    } else {
        assert(old.last() == old[i]);
        let k = choose|k: int| 0 <= k < old[i].files.len() && old[i].files[k] == f;
        assert(r[rq.len() + k] == f);
    }
}

/// Updating a package hands back, among the files to remove, every file of each of the
/// package's old addons that is no longer requested.
pub proof fn law_update_package_removes_dropped_files(
    l: SLockfile,
    req: Seq<char>,
    addons: Seq<SLockAddon>,
    i: int,
    f: Seq<char>,
)
    requires
        0 <= i < l.addons.len(),
        spec_is_from_package(l.addons[i], req),
        !has_id(addons, l.addons[i].id),
        l.addons[i].files.contains(f),
    ensures
        spec_update_package_files(l, req, addons).contains(f),
{
    lemma_removed_files_contain(l.addons, req, addons, i, f);
    let r = spec_removed_files(l.addons, req, addons);
    let k = choose|k: int| 0 <= k < r.len() && r[k] == f;
    assert(spec_update_package_files(l, req, addons)[k] == f);
}

proof fn lemma_packages_in_members(p: Seq<(Seq<char>, Option<Seq<char>>)>, used: Seq<Seq<char>>)
    ensures
        forall|i: int| 0 <= i < packages_in(p, used).len() ==> used.contains(#[trigger] packages_in(p, used)[i].0),
        forall|i: int| 0 <= i < p.len() && used.contains(p[i].0) ==> packages_in(p, used).contains(p[i]),
    decreases p.len(),
{
    if p.len() > 0 {
        let q = p.drop_last();
        lemma_packages_in_members(q, used);
        let pq = packages_in(q, used);
        let pp = packages_in(p, used);
        assert forall|i: int| 0 <= i < pp.len() implies used.contains(#[trigger] pp[i].0) by {
            if i < pq.len() {
                assert(pp[i] == pq[i]);
            }
        }
        assert forall|i: int| 0 <= i < p.len() && used.contains(p[i].0) implies pp.contains(p[i]) by {
            if i < q.len() {
                assert(q[i] == p[i]);
                let k = choose|k: int| 0 <= k < pq.len() && pq[k] == q[i];
                assert(pp[k] == p[i]);
            } else {
                assert(pp[pp.len() - 1] == p[i]);
            }
        }
    }
}

/// After removing unused packages, every recorded package is one of the used packages, and
/// every used package that was recorded is still recorded with its content version.
pub proof fn law_remove_unused_packages(l: SLockfile, used: Seq<Seq<char>>)
    requires
        lock_wf(l),
    ensures
        forall|i: int|
            0 <= i < packages_in(l.packages, used).len() ==> used.contains(
                #[trigger] packages_in(l.packages, used)[i].0,
            ),
        forall|i: int|
            0 <= i < l.packages.len() && used.contains(l.packages[i].0) ==> packages_in(
                l.packages,
                used,
            ).contains(l.packages[i]),
        keys_unique(packages_in(l.packages, used)),
{
    lemma_packages_in_members(l.packages, used);
    lemma_packages_in(l.packages, used);
}

proof fn lemma_addons_not_modpack(s: Seq<SLockAddon>)
    ensures
        forall|i: int| 0 <= i < s.len() && !s[i].from_modpack ==> addons_not_modpack(s).contains(s[i]),
        forall|i: int| 0 <= i < addons_not_modpack(s).len() ==> !(#[trigger] addons_not_modpack(s)[i]).from_modpack,
    decreases s.len(),
{
    if s.len() > 0 {
        let q = s.drop_last();
        lemma_addons_not_modpack(q);
        let aq = addons_not_modpack(q);
        let a = addons_not_modpack(s);
        assert forall|i: int| 0 <= i < s.len() && !s[i].from_modpack implies a.contains(s[i]) by {
            if i < q.len() {
                assert(q[i] == s[i]);
                let k = choose|k: int| 0 <= k < aq.len() && aq[k] == q[i];
                assert(a[k] == s[i]);
            } else {
                assert(a[a.len() - 1] == s[i]);
            }
        }
        assert forall|i: int| 0 <= i < a.len() implies !(#[trigger] a[i]).from_modpack by {
            if i < aq.len() {
                assert(a[i] == aq[i]);
            }
        }
    }
}

/// Updating the modpack keeps every addon that is not from a modpack and drops every old
/// modpack addon: afterwards the modpack addons are exactly the new ones.
pub proof fn law_update_modpack_keeps_other_addons(old: Seq<SLockAddon>, new: Seq<SLockAddon>)
    ensures
        forall|i: int| 0 <= i < old.len() && !old[i].from_modpack ==> (addons_not_modpack(old) + new).contains(old[i]),
        forall|i: int|
            0 <= i < addons_not_modpack(old).len() ==> !(#[trigger] addons_not_modpack(old)[i]).from_modpack,
{
    lemma_addons_not_modpack(old);
    let a = addons_not_modpack(old);
    assert forall|i: int| 0 <= i < old.len() && !old[i].from_modpack implies (a + new).contains(old[i]) by {
        let k = choose|k: int| 0 <= k < a.len() && a[k] == old[i];
        assert((a + new)[k] == old[i]);
    }
}

} // verus!
