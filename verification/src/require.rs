//! Packages named by the require instruction

use vstd::prelude::*;

use crate::vars::{SValue, Value};

verus! {

/// A single required package
#[derive(Debug, Clone)]
pub struct Package {
    pub value: Value,
    pub explicit: bool,
}

/// The mathematical value of a required package.
pub struct SPackage {
    pub value: SValue,
    pub explicit: bool,
}

impl View for Package {
    type V = SPackage;

    open spec fn view(&self) -> SPackage {
        SPackage { value: self.value@, explicit: self.explicit }
    }
}

impl Package {
    /// A copy of this package.
    pub fn duplicate(&self) -> (r: Package)
        ensures
            r@ == self@,
    {
        Package { value: self.value.duplicate(), explicit: self.explicit }
    }
}

/// State of the require parser
#[derive(Debug, Clone, Copy, PartialEq, Eq, Structural)]
pub enum State {
    /// Normal parsing state
    Normal,
}

/// The mathematical value of a group of required packages.
pub open spec fn group_view(v: Seq<Package>) -> Seq<SPackage> {
    v.map_values(|p: Package| p@)
}

/// The mathematical value of a list of groups of required packages.
pub open spec fn groups_view(g: Seq<Vec<Package>>) -> Seq<Seq<SPackage>> {
    g.map_values(|v: Vec<Package>| group_view(v@))
}

proof fn lemma_group_view_push(v: Seq<Package>, p: Package)
    ensures
        group_view(v.push(p)) == group_view(v).push(p@),
{
    assert(group_view(v.push(p)) =~= group_view(v).push(p@));
}

proof fn lemma_groups_view_push(v: Seq<Vec<Package>>, p: Vec<Package>)
    ensures
        groups_view(v.push(p)) == groups_view(v).push(group_view(p@)),
{
    assert(groups_view(v.push(p)) =~= groups_view(v).push(group_view(p@)));
}

/// A copy of a group of required packages.
pub fn duplicate_group(g: &Vec<Package>) -> (r: Vec<Package>)
    ensures
        group_view(r@) == group_view(g@),
{
    let mut out: Vec<Package> = Vec::new();
    let mut i: usize = 0;
    while i < g.len()
        invariant
            i <= g@.len(),
            group_view(out@) == group_view(g@.take(i as int)),
        decreases g@.len() - i,
    {
        let d = g[i].duplicate();
        proof {
            lemma_group_view_push(out@, d);
            lemma_group_view_push(g@.take(i as int), g@[i as int]);
            assert(g@.take(i + 1) == g@.take(i as int).push(g@[i as int]));
        }
        out.push(d);
        i = i + 1;
    }
    proof {
        assert(g@.take(g@.len() as int) == g@);
    }
    out
}

/// A copy of a list of groups of required packages.
pub fn duplicate_groups(g: &Vec<Vec<Package>>) -> (r: Vec<Vec<Package>>)
    ensures
        groups_view(r@) == groups_view(g@),
{
    let mut out: Vec<Vec<Package>> = Vec::new();
    let mut i: usize = 0;
    while i < g.len()
        invariant
            i <= g@.len(),
            groups_view(out@) == groups_view(g@.take(i as int)),
        decreases g@.len() - i,
    {
        let d = duplicate_group(&g[i]);
        proof {
            lemma_groups_view_push(out@, d);
            lemma_groups_view_push(g@.take(i as int), g@[i as int]);
            assert(g@.take(i + 1) == g@.take(i as int).push(g@[i as int]));
        }
        out.push(d);
        i = i + 1;
    }
    proof {
        assert(g@.take(g@.len() as int) == g@);
    }
    out
}

} // verus!
