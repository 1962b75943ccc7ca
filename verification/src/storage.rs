//! Where addons are kept in storage

use vstd::prelude::*;

use crate::paths::{join_path, spec_join};

verus! {

/// Get the path to a sha256 addon in storage
pub fn get_sha256_addon_path(addons_dir: &str, hash: &str) -> (r: String)
    ensures
        r@ == spec_join(spec_join(addons_dir@, "sha256"@), hash@),
{
    let base = join_path(addons_dir, "sha256");
    join_path(base.as_str(), hash)
}

/// The version directory that stands for an addon without a version.
pub open spec fn any_version() -> Seq<char> {
    "any"@
}

/// Get the path to a generic addon in storage
pub fn get_generic_addon_path(addons_dir: &str, addon_id: &str, addon_version: Option<String>) -> (r:
    String)
    ensures
        r@ == spec_join(
            spec_join(spec_join(spec_join(addons_dir@, "generic"@), addon_id@), addon_id@),
            match addon_version {
                Some(v) => v@,
                None => any_version(),
            },
        ),
{
    let generic = join_path(addons_dir, "generic");
    let base_dir = join_path(generic.as_str(), addon_id);
    let addon_version = match addon_version {
        Some(v) => v,
        None => crate::text::owned("any"),
    };
    let with_id = join_path(base_dir.as_str(), addon_id);
    join_path(with_id.as_str(), addon_version.as_str())
}

} // verus!
