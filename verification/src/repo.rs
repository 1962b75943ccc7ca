//! Package repositories and their index files

use vstd::prelude::*;

use crate::pkg::PackageContentType;
use crate::text::{chars_of, ends_with_char, string_from_chars, string_push_str};

verus! {

/// Metadata for a package repository
#[derive(Debug, Clone, Default)]
pub struct RepoMetadata {
    /// The display name of the repository
    pub name: Option<String>,
    /// The short description of the repository
    pub description: Option<String>,
}

/// An entry in the repository index package list that specifies information about the package
#[derive(Debug, Clone)]
pub struct RepoPkgEntry {
    /// The URL to the package file
    pub url: String,
    /// Override for the content type of this package
    pub content_type: Option<PackageContentType>,
}

/// Format for a repository index
#[derive(Debug, Clone)]
pub struct RepoIndex {
    /// Metadata for the repository
    pub metadata: RepoMetadata,
    /// The packages available from the repository, by ID
    pub packages: Vec<(String, RepoPkgEntry)>,
}

/// The path of the index file below a repository's base URL.
pub open spec fn index_suffix() -> Seq<char> {
    "/api/mcvm/index.json"@
}

/// The base URL without one trailing slash.
pub open spec fn trim_slash(base: Seq<char>) -> Seq<char> {
    if base.len() > 0 && base.last() == '/' {
        base.drop_last()
    } else {
        base
    }
}

/// The URL of a repository's index file.
pub open spec fn spec_index_url(base: Seq<char>) -> Seq<char> {
    trim_slash(base) + index_suffix()
}

/// Get the URL of the repository index file
pub fn get_index_url(base_url: &str) -> (r: String)
    ensures
        r@ == spec_index_url(base_url@),
{
    let cs = chars_of(base_url);
    let mut out = if ends_with_char(base_url, '/') {
        let trimmed = string_from_chars(&cs.as_slice()[0..cs.len() - 1]);
        proof {
            assert(cs@.subrange(0, cs@.len() - 1) =~= base_url@.drop_last());
        }
        trimmed
    } else {
        string_from_chars(cs.as_slice())
    };
    string_push_str(&mut out, "/api/mcvm/index.json");
    out
}

/// A base URL with or without one trailing slash gives the same index URL.
pub proof fn law_index_url_trailing_slash(base: Seq<char>)
    requires
        base.len() == 0 || base.last() != '/',
    ensures
        spec_index_url(base.push('/')) == spec_index_url(base),
{
    assert(base.push('/').drop_last() =~= base);
}

} // verus!
