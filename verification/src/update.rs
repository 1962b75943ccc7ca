//! Tracking of the files that updating functions have changed

use vstd::prelude::*;

use crate::text::strings_contain;

verus! {

/// How important a message is
#[derive(Debug, Clone, Copy, PartialEq, Eq, Structural)]
pub enum MessageLevel {
    /// Always shown
    Important,
    /// Shown when more output is wanted
    Extra,
    /// Shown when debugging
    Debug,
    /// Shown when tracing
    Trace,
}

/// Options for printing / output
#[derive(Debug, Clone, Copy, PartialEq, Eq, Structural)]
pub struct PrintOptions {
    /// Whether to print more output
    pub verbose: bool,
    /// The level of messages to show
    pub level: MessageLevel,
}

/// The set of files that a list of paths stands for.
pub open spec fn file_set(v: Vec<String>) -> Set<Seq<char>> {
    v.deep_view().to_set()
}

/// Manager for when we are updating profile files.
/// It will keep track of files we have already downloaded, manage task requirements, etc
#[derive(Debug)]
pub struct UpdateManager {
    /// Options for printing / output
    pub print: PrintOptions,
    /// Whether to force file updates
    pub force: bool,
    /// Whether we will prioritize local files instead of remote ones
    pub allow_offline: bool,
    /// File paths that are added when they have been updated by other functions
    files: Vec<String>,
}

/// Whether a file needs to be updated: when updates are forced, one that has not been
/// updated yet in this run or that does not exist; otherwise one that does not exist.
pub open spec fn spec_should_update(force: bool, already_updated: bool, exists: bool) -> bool {
    if force {
        !already_updated || !exists
    } else {
        !exists
    }
}

impl UpdateManager {
    /// The files recorded as updated.
    pub closed spec fn updated_files(&self) -> Set<Seq<char>> {
        file_set(self.files)
    }

    /// Whether to force file updates.
    pub closed spec fn spec_force(&self) -> bool {
        self.force
    }

    /// The print options.
    pub closed spec fn spec_print(&self) -> PrintOptions {
        self.print
    }

    /// Whether local files are preferred.
    pub closed spec fn spec_allow_offline(&self) -> bool {
        self.allow_offline
    }

    /// Whether local files may be used without updating them
    pub fn allows_offline(&self) -> (r: bool)
        ensures
            r == self.spec_allow_offline(),
    {
        self.allow_offline
    }

    /// Create a new UpdateManager
    pub fn new(print: PrintOptions, force: bool, allow_offline: bool) -> (r: UpdateManager)
        ensures
            r.spec_print() == print,
            r.spec_force() == force,
            r.spec_allow_offline() == allow_offline,
            r.updated_files() == Set::<Seq<char>>::empty(),
    {
        let r = UpdateManager { print, force, allow_offline, files: Vec::new() };
        proof {
            assert(file_set(r.files) =~= Set::<Seq<char>>::empty());
        }
        r
    }

    /// Add a single updated_files file to the manager
    pub fn add_file(&mut self, file: String)
        ensures
            final(self).updated_files() == old(self).updated_files().insert(file@),
            final(self).spec_force() == old(self).spec_force(),
    {
        let ghost old_files = self.files.deep_view();
        let ghost f = file@;
        self.files.push(file);
        proof {
            assert(self.files.deep_view() =~= old_files.push(f));
            crate::text::lemma_push_to_set(old_files, f);
        }
    }

    /// Add updated_files files to the manager
    pub fn add_files(&mut self, files: Vec<String>)
        ensures
            final(self).updated_files() == old(self).updated_files().union(file_set(files)),
            final(self).spec_force() == old(self).spec_force(),
    {
        let ghost old_files = self.files.deep_view();
        let ghost added = files.deep_view();
        let mut files = files;
        self.files.append(&mut files);
        proof {
            assert(self.files.deep_view() =~= old_files + added);
            assert(file_set(self.files) =~= old_files.to_set().union(added.to_set())) by {
                assert forall|x: Seq<char>| (old_files + added).contains(x) <==> (old_files.contains(x) || added.contains(x)) by {
                    if (old_files + added).contains(x) {
                        let i = choose|i: int| 0 <= i < (old_files + added).len() && (old_files + added)[i] == x;
                        if i >= old_files.len() {
                            assert(added[i - old_files.len()] == x);
                        }
                    }
                    if added.contains(x) {
                        let i = choose|i: int| 0 <= i < added.len() && added[i] == x;
                        assert((old_files + added)[old_files.len() + i] == x);
                    }
                    if old_files.contains(x) {
                        let i = choose|i: int| 0 <= i < old_files.len() && old_files[i] == x;
                        assert((old_files + added)[i] == x);
                    }
                }
            }
        }
    }

    /// Adds an UpdateMethodResult to the UpdateManager
    pub fn add_result(&mut self, result: UpdateMethodResult)
        ensures
            final(self).updated_files() == old(self).updated_files().union(result@),
            final(self).spec_force() == old(self).spec_force(),
    {
        self.add_files(result.files_updated);
    }

    /// Whether a file needs to be updated, given whether it exists
    pub fn should_update_file(&self, file: &str, exists: bool) -> (r: bool)
        ensures
            r == spec_should_update(self.spec_force(), self.updated_files().contains(file@), exists),
    {
        if self.force {
            !strings_contain(&self.files, file) || !exists
        } else {
            !exists
        }
    }
}

/// Struct returned by updating functions, with data like changed files
#[derive(Debug, Default)]
pub struct UpdateMethodResult {
    /// The files that this function has updated
    pub files_updated: Vec<String>,
}

impl View for UpdateMethodResult {
    type V = Set<Seq<char>>;

    open spec fn view(&self) -> Set<Seq<char>> {
        file_set(self.files_updated)
    }
}

impl UpdateMethodResult {
    /// Create a new UpdateMethodResult
    pub fn new() -> (r: UpdateMethodResult)
        ensures
            r@ == Set::<Seq<char>>::empty(),
    {
        let r = UpdateMethodResult { files_updated: Vec::new() };
        proof {
            assert(r@ =~= Set::<Seq<char>>::empty());
        }
        r
    }

    /// Merges this result with another one
    pub fn merge(&mut self, other: UpdateMethodResult)
        ensures
            final(self)@ == old(self)@.union(other@),
    {
        let ghost a = self.files_updated.deep_view();
        let ghost b = other.files_updated.deep_view();
        let mut files = other.files_updated;
        self.files_updated.append(&mut files);
        proof {
            assert(self.files_updated.deep_view() =~= a + b);
            assert forall|x: Seq<char>| (a + b).contains(x) <==> (a.contains(x) || b.contains(x)) by {
                if (a + b).contains(x) {
                    let i = choose|i: int| 0 <= i < (a + b).len() && (a + b)[i] == x;
                    if i >= a.len() {
                        assert(b[i - a.len()] == x);
                    }
                }
                if b.contains(x) {
                    let i = choose|i: int| 0 <= i < b.len() && b[i] == x;
                    assert((a + b)[a.len() + i] == x);
                }
                if a.contains(x) {
                    let i = choose|i: int| 0 <= i < a.len() && a[i] == x;
                    assert((a + b)[i] == x);
                }
            }
            assert(self@ =~= old(self)@.union(other@));
        }
    }

    /// Records a file as updated
    pub fn add_file(&mut self, file: String)
        ensures
            final(self)@ == old(self)@.insert(file@),
    {
        let ghost a = self.files_updated.deep_view();
        let ghost f = file@;
        self.files_updated.push(file);
        proof {
            assert(self.files_updated.deep_view() =~= a.push(f));
            crate::text::lemma_push_to_set(a, f);
        }
    }
}

/// A file that has already been updated in this run and exists on disk is never
/// updated again, forced or not.
pub proof fn law_updated_file_is_not_updated_again(m: UpdateManager, file: Seq<char>)
    requires
        m.updated_files().contains(file),
    ensures
        !spec_should_update(m.spec_force(), m.updated_files().contains(file), true),
{
}

} // verus!
