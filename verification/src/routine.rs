//! Things related to package script routines

use vstd::prelude::*;

use crate::text::str_eq;

verus! {

pub const METADATA_ROUTINE: &'static str = "meta";

pub const PROPERTIES_ROUTINE: &'static str = "properties";

pub const INSTALL_ROUTINE: &'static str = "install";

pub const UNINSTALL_ROUTINE: &'static str = "uninstall";

/// The name of the metadata routine.
pub open spec fn meta_routine() -> Seq<char> {
    seq!['m', 'e', 't', 'a']
}

/// The name of the properties routine.
pub open spec fn properties_routine() -> Seq<char> {
    seq!['p', 'r', 'o', 'p', 'e', 'r', 't', 'i', 'e', 's']
}

/// The name of the install routine.
pub open spec fn install_routine() -> Seq<char> {
    seq!['i', 'n', 's', 't', 'a', 'l', 'l']
}

/// The name of the uninstall routine.
pub open spec fn uninstall_routine() -> Seq<char> {
    seq!['u', 'n', 'i', 'n', 's', 't', 'a', 'l', 'l']
}

/// Whether a routine name is reserved for use by mcvm.
pub open spec fn spec_is_reserved(routine: Seq<char>) -> bool {
    routine == meta_routine() || routine == properties_routine() || routine == install_routine()
        || routine == uninstall_routine()
}

/// The names of the routines that mcvm itself runs, as literals.
pub proof fn lemma_routine_literals()
    ensures
        "meta"@ == meta_routine(),
        "properties"@ == properties_routine(),
        "install"@ == install_routine(),
        "uninstall"@ == uninstall_routine(),
{
    reveal_strlit("meta");
    reveal_strlit("properties");
    reveal_strlit("install");
    reveal_strlit("uninstall");
    assert("meta"@ =~= meta_routine());
    assert("properties"@ =~= properties_routine());
    assert("install"@ =~= install_routine());
    assert("uninstall"@ =~= uninstall_routine());
}

/// Returns if a routine name is reserved for use by mcvm
pub fn is_reserved(routine: &str) -> (r: bool)
    ensures
        r == spec_is_reserved(routine@),
{
    proof {
        lemma_routine_literals();
    }
    str_eq(routine, "meta") || str_eq(routine, "properties") || str_eq(routine, "install")
        || str_eq(routine, "uninstall")
}

} // verus!
