//! Game assets: where they are stored and which need downloading

use vstd::prelude::*;

use crate::paths::{join_path, spec_join};
use crate::text::{chars_of, owned, string_push, string_push_str};
use crate::update::{spec_should_update, UpdateManager};

verus! {

/// A single asset in the index
#[derive(Debug, Clone)]
pub struct IndexEntry {
    /// The hash of the index file
    pub hash: String,
}

/// Structure for the assets index
#[derive(Debug, Clone)]
pub struct AssetIndex {
    /// The asset resource locations with their index entries
    pub objects: Vec<(String, IndexEntry)>,
}

/// Get the virtual assets directory path
pub fn get_virtual_dir_path(assets_dir: &str) -> (r: String)
    ensures
        r@ == spec_join(spec_join(assets_dir@, "virtual"@), "legacy"@),
{
    let v = join_path(assets_dir, "virtual");
    join_path(v.as_str(), "legacy")
}

/// The number of bytes that a character takes in UTF-8.
pub open spec fn utf8_len(c: char) -> nat {
    if (c as u32) < 0x80 {
        1
    } else if (c as u32) < 0x800 {
        2
    } else if (c as u32) < 0x10000 {
        3
    } else {
        4
    }
}

/// The first two bytes of a hash end on a character boundary: two ASCII characters, or
/// one character of two bytes.
pub open spec fn hash_prefix_ok(hash: Seq<char>) -> bool {
    (hash.len() >= 2 && utf8_len(hash[0]) == 1 && utf8_len(hash[1]) == 1) || (hash.len() >= 1
        && utf8_len(hash[0]) == 2)
}

/// The characters of the first two bytes of a hash.
pub open spec fn hash_prefix(hash: Seq<char>) -> Seq<char> {
    if utf8_len(hash[0]) == 1 {
        hash.subrange(0, 2)
    } else {
        hash.subrange(0, 1)
    }
}

/// Where an asset is stored below the objects directory: `{first two bytes of the hash}/{hash}`.
pub open spec fn spec_hash_path(hash: Seq<char>) -> Seq<char> {
    hash_prefix(hash) + seq!['/'] + hash
}

/// The server that asset files are downloaded from.
pub open spec fn resources_url() -> Seq<char> {
    "https://resources.download.minecraft.net/"@
}

/// Where an asset is stored below the objects directory
pub fn hash_path(hash: &str) -> (r: String)
    requires
        hash_prefix_ok(hash@),
    ensures
        r@ == spec_hash_path(hash@),
{
    let cs = chars_of(hash);
    let mut out = String::new();
    string_push(&mut out, cs[0]);
    if (cs[0] as u32) < 0x80 {
        string_push(&mut out, cs[1]);
    }
    string_push(&mut out, '/');
    string_push_str(&mut out, hash);
    proof {
        assert(out@ =~= spec_hash_path(hash@));
    }
    out
}

/// An asset to download: its name, where it comes from, and where it goes
#[derive(Debug, Clone)]
pub struct AssetDownload {
    /// The asset's resource location
    pub name: String,
    /// The URL of the asset file
    pub url: String,
    /// Where the asset is stored
    pub path: String,
    /// Where the asset is linked in the virtual directory, for old versions
    pub virtual_path: Option<String>,
}

/// The download of an asset with the given hash
pub fn asset_download(name: String, hash: &str, objects_dir: &str, virtual_dir: Option<&str>) -> (r:
    AssetDownload)
    requires
        hash_prefix_ok(hash@),
    ensures
        r.name == name,
        r.url@ == resources_url() + spec_hash_path(hash@),
        r.path@ == spec_join(objects_dir@, spec_hash_path(hash@)),
        match virtual_dir {
            Some(d) => r.virtual_path matches Some(v) && v@ == spec_join(d@, spec_hash_path(hash@)),
            None => r.virtual_path is None,
        },
{
    let hp = hash_path(hash);
    let mut url = owned("https://resources.download.minecraft.net/");
    string_push_str(&mut url, hp.as_str());
    let path = join_path(objects_dir, hp.as_str());
    let virtual_path = match virtual_dir {
        Some(d) => Some(join_path(d, hp.as_str())),
        None => None,
    };
    AssetDownload { name, url, path, virtual_path }
}

/// Whether an asset has to be downloaded: when its stored file needs an update, or when
/// its virtual file (if it has one) does.
pub fn asset_needs_download(
    manager: &UpdateManager,
    download: &AssetDownload,
    path_exists: bool,
    virtual_exists: bool,
) -> (r: bool)
    ensures
        r == (spec_should_update(manager.spec_force(), manager.updated_files().contains(download.path@), path_exists)
            || (download.virtual_path matches Some(v) && spec_should_update(
            manager.spec_force(),
            manager.updated_files().contains(v@),
            virtual_exists,
        ))),
{
    if manager.should_update_file(download.path.as_str(), path_exists) {
        return true;
    }
    match &download.virtual_path {
        Some(v) => manager.should_update_file(v.as_str(), virtual_exists),
        None => false,
    }
}

} // verus!
