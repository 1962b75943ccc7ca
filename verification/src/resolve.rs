//! Standardized package dependency resolution
//!
//! Resolution alternates between evaluating packages, which the caller does, and
//! deciding what the evaluated relations require, which the [`Resolver`] does. The
//! caller takes the next task, checks its package against the constraints, evaluates
//! the package's relations, hands them to [`Resolver::apply_relations`] and then calls
//! [`Resolver::check_compats`], until no task is left, and then calls
//! [`Resolver::finish`]. Packages are identified by their IDs.

use std::collections::VecDeque;

use vstd::prelude::*;

use crate::order::{flagged_le, pair_le, sorted, text_le, views, SortKey};
use crate::script_eval::{RecommendedPackage, RequiredPackage};
use crate::text::{owned, str_eq};

verus! {

/// A requirement for the installation of the packages
#[derive(Debug, Clone, PartialEq, Eq)]
pub enum Constraint {
    /// The package is required by another package
    Require(String),
    /// The package is required by the user
    UserRequire(String),
    /// The package is refused by the second package
    Refuse(String, String),
    /// The package is recommended, or recommended against where the flag is set
    Recommend(String, bool),
    /// The package is bundled; the flag tells whether only bundles lead from a package
    /// that the user required to it
    Bundle(String, bool),
    /// Where the first package is required, the second one is too
    Compat(String, String),
    /// The package is extended by the second package, and must be installed
    Extend(String, String),
}

/// The mathematical value of a constraint.
pub enum SConstraint {
    Require(Seq<char>),
    UserRequire(Seq<char>),
    Refuse(Seq<char>, Seq<char>),
    Recommend(Seq<char>, bool),
    Bundle(Seq<char>, bool),
    Compat(Seq<char>, Seq<char>),
    Extend(Seq<char>, Seq<char>),
}

impl View for Constraint {
    type V = SConstraint;

    open spec fn view(&self) -> SConstraint {
        match self {
            Constraint::Require(p) => SConstraint::Require(p@),
            Constraint::UserRequire(p) => SConstraint::UserRequire(p@),
            Constraint::Refuse(p, by) => SConstraint::Refuse(p@, by@),
            Constraint::Recommend(p, invert) => SConstraint::Recommend(p@, *invert),
            Constraint::Bundle(p, user) => SConstraint::Bundle(p@, *user),
            Constraint::Compat(p, c) => SConstraint::Compat(p@, c@),
            Constraint::Extend(p, by) => SConstraint::Extend(p@, by@),
        }
    }
}

/// A package that needs to be evaluated
#[derive(Debug, Clone, PartialEq, Eq)]
pub struct Task {
    /// The package to evaluate
    pub package: String,
    /// Whether the package comes from the user's configuration, whose settings apply
    pub configured: bool,
    /// Whether the package was required by the user, or bundled by such a package
    pub user_bundled: bool,
}

/// The mathematical value of a task: its package, whether it is configured and whether
/// it is user-bundled.
pub type STask = (Seq<char>, bool, bool);

impl View for Task {
    type V = STask;

    open spec fn view(&self) -> STask {
        (self.package@, self.configured, self.user_bundled)
    }
}

/// Why resolution failed
#[derive(Debug, Clone, PartialEq, Eq)]
pub enum ResolutionError {
    /// The package is refused by the listed packages
    Refused { package: String, refusers: Vec<String> },
    /// The package refuses a package that is already required
    Incompatible { package: String, refuser: String },
    /// The package requires a package explicitly that the user has not required
    ExplicitRequire { package: String, dependent: String },
    /// The package extends a package that is not installed
    ExtensionMissing { package: String, extender: String },
}

/// The mathematical value of a resolution error.
pub enum SResolutionError {
    Refused(Seq<char>, Seq<Seq<char>>),
    Incompatible(Seq<char>, Seq<char>),
    ExplicitRequire(Seq<char>, Seq<char>),
    ExtensionMissing(Seq<char>, Seq<char>),
}

impl View for ResolutionError {
    type V = SResolutionError;

    open spec fn view(&self) -> SResolutionError {
        match self {
            ResolutionError::Refused { package, refusers } => SResolutionError::Refused(
                package@,
                refusers.deep_view(),
            ),
            ResolutionError::Incompatible { package, refuser } => SResolutionError::Incompatible(
                package@,
                refuser@,
            ),
            ResolutionError::ExplicitRequire { package, dependent } => SResolutionError::ExplicitRequire(
                package@,
                dependent@,
            ),
            ResolutionError::ExtensionMissing { package, extender } => SResolutionError::ExtensionMissing(
                package@,
                extender@,
            ),
        }
    }
}

/// Whether the constraint requires the package
pub open spec fn requires_package(c: SConstraint, id: Seq<char>) -> bool {
    match c {
        SConstraint::Require(d) | SConstraint::UserRequire(d) | SConstraint::Bundle(d, _) => d == id,
        _ => false,
    }
}

/// Whether some constraint requires the package.
pub open spec fn spec_is_required(cs: Seq<SConstraint>, id: Seq<char>) -> bool {
    exists|i: int| 0 <= i < cs.len() && #[trigger] requires_package(cs[i], id)
}

/// Whether the constraint requires the package for the user
pub open spec fn user_requires_package(c: SConstraint, id: Seq<char>) -> bool {
    match c {
        SConstraint::UserRequire(d) => d == id,
        SConstraint::Bundle(d, user) => user && d == id,
        _ => false,
    }
}

/// Whether the user requires the package, or it is bundled on behalf of the user.
pub open spec fn spec_is_user_required(cs: Seq<SConstraint>, id: Seq<char>) -> bool {
    exists|i: int| 0 <= i < cs.len() && #[trigger] user_requires_package(cs[i], id)
}

/// Whether the constraint refuses the package
pub open spec fn refuses_package(c: SConstraint, id: Seq<char>) -> bool {
    c matches SConstraint::Refuse(d, _) && d == id
}

/// Whether some constraint refuses the package.
pub open spec fn spec_is_refused(cs: Seq<SConstraint>, id: Seq<char>) -> bool {
    exists|i: int| 0 <= i < cs.len() && #[trigger] refuses_package(cs[i], id)
}

/// The packages that refuse the package, in the order of their constraints.
pub open spec fn spec_refusers(cs: Seq<SConstraint>, id: Seq<char>) -> Seq<Seq<char>>
    decreases cs.len(),
{
    if cs.len() == 0 {
        Seq::empty()
    } else {
        let rest = spec_refusers(cs.drop_last(), id);
        match cs.last() {
            SConstraint::Refuse(d, by) => if d == id {
                rest.push(by)
            } else {
                rest
            },
            _ => rest,
        }
    }
}

/// Whether a compat constraint between the two packages exists.
pub open spec fn spec_compat_exists(cs: Seq<SConstraint>, package: Seq<char>, compat: Seq<char>) -> bool {
    exists|i: int| 0 <= i < cs.len() && #[trigger] cs[i] == SConstraint::Compat(package, compat)
}

/// The index of the first constraint that requires the package.
pub open spec fn first_require_index(cs: Seq<SConstraint>, id: Seq<char>) -> int {
    choose|i: int|
        0 <= i < cs.len() && requires_package(cs[i], id) && forall|j: int|
            0 <= j < i ==> !#[trigger] requires_package(cs[j], id)
}

/// The constraints after the first one that requires the package, if any, is removed
/// by moving the last constraint into its place.
pub open spec fn spec_remove_require(cs: Seq<SConstraint>, id: Seq<char>) -> Seq<SConstraint> {
    if spec_is_required(cs, id) {
        let i = first_require_index(cs, id);
        cs.update(i, cs.last()).drop_last()
    } else {
        cs
    }
}

/// The packages that the constraints require, in their order.
pub open spec fn spec_collect_packages(cs: Seq<SConstraint>) -> Seq<Seq<char>>
    decreases cs.len(),
{
    if cs.len() == 0 {
        Seq::empty()
    } else {
        let rest = spec_collect_packages(cs.drop_last());
        match cs.last() {
            SConstraint::Require(d) | SConstraint::UserRequire(d) | SConstraint::Bundle(d, _) => rest.push(
                d,
            ),
            _ => rest,
        }
    }
}

/// State for resolution
pub struct Resolver {
    tasks: VecDeque<Task>,
    constraints: Vec<Constraint>,
}

impl Resolver {
    /// The tasks that are left, in the order they are taken.
    pub closed spec fn tasks(&self) -> Seq<STask> {
        views(self.tasks@)
    }

    /// The constraints, in the order they were made.
    pub closed spec fn constraints(&self) -> Seq<SConstraint> {
        views(self.constraints@)
    }

    /// Whether the constraint at the index requires the package
    fn is_required_at(&self, i: usize, id: &str) -> (r: bool)
        requires
            i < self.constraints().len(),
        ensures
            r == requires_package(self.constraints()[i as int], id@),
    {
        assert(self.constraints()[i as int] == self.constraints@[i as int]@);
        match &self.constraints[i] {
            Constraint::Require(d) | Constraint::UserRequire(d) | Constraint::Bundle(d, _) => str_eq(
                d.as_str(),
                id,
            ),
            _ => false,
        }
    }

    /// Whether a package has been required by an existing constraint
    pub fn is_required(&self, id: &str) -> (r: bool)
        ensures
            r == spec_is_required(self.constraints(), id@),
    {
        let mut i: usize = 0;
        while i < self.constraints.len()
            invariant
                i <= self.constraints@.len(),
                forall|j: int| 0 <= j < i ==> !#[trigger] requires_package(self.constraints()[j], id@),
            decreases self.constraints@.len() - i,
        {
            if self.is_required_at(i, id) {
                return true;
            }
            i = i + 1;
        }
        false
    }

    /// Whether a package has been required by the user
    pub fn is_user_required(&self, id: &str) -> (r: bool)
        ensures
            r == spec_is_user_required(self.constraints(), id@),
    {
        let mut i: usize = 0;
        while i < self.constraints.len()
            invariant
                i <= self.constraints@.len(),
                forall|j: int| 0 <= j < i ==> !#[trigger] user_requires_package(self.constraints()[j], id@),
            decreases self.constraints@.len() - i,
        {
            assert(self.constraints()[i as int] == self.constraints@[i as int]@);
            let found = match &self.constraints[i] {
                Constraint::UserRequire(d) => str_eq(d.as_str(), id),
                Constraint::Bundle(d, user) => *user && str_eq(d.as_str(), id),
                _ => false,
            };
            if found {
                assert(user_requires_package(self.constraints()[i as int], id@));
                return true;
            }
            i = i + 1;
        }
        false
    }

    /// Whether a package has been refused by an existing constraint
    pub fn is_refused(&self, id: &str) -> (r: bool)
        ensures
            r == spec_is_refused(self.constraints(), id@),
    {
        let mut i: usize = 0;
        while i < self.constraints.len()
            invariant
                i <= self.constraints@.len(),
                forall|j: int| 0 <= j < i ==> !#[trigger] refuses_package(self.constraints()[j], id@),
            decreases self.constraints@.len() - i,
        {
            assert(self.constraints()[i as int] == self.constraints@[i as int]@);
            let found = match &self.constraints[i] {
                Constraint::Refuse(d, _) => str_eq(d.as_str(), id),
                _ => false,
            };
            if found {
                assert(refuses_package(self.constraints()[i as int], id@));
                return true;
            }
            i = i + 1;
        }
        false
    }

    /// Get all refusers of this package
    pub fn get_refusers(&self, id: &str) -> (r: Vec<String>)
        ensures
            r.deep_view() == spec_refusers(self.constraints(), id@),
    {
        let mut out: Vec<String> = Vec::new();
        let mut i: usize = 0;
        proof {
            assert(self.constraints().take(0) =~= Seq::<SConstraint>::empty());
            assert(out.deep_view() =~= Seq::<Seq<char>>::empty());
        }
        while i < self.constraints.len()
            invariant
                i <= self.constraints@.len(),
                out.deep_view() == spec_refusers(self.constraints().take(i as int), id@),
            decreases self.constraints@.len() - i,
        {
            proof {
                assert(self.constraints().take(i + 1).drop_last() =~= self.constraints().take(i as int));
            }
            let ghost before = out.deep_view();
            match &self.constraints[i] {
                Constraint::Refuse(d, by) => {
                    if str_eq(d.as_str(), id) {
                        out.push(by.clone());
                        proof {
                            assert(out.deep_view() =~= before.push(by@));
                        }
                    }
                },
                _ => {},
            }
            i = i + 1;
        }
        proof {
            assert(self.constraints().take(self.constraints@.len() as int) =~= self.constraints());
        }
        out
    }

    /// Whether a compat constraint exists
    pub fn compat_exists(&self, package: &str, compat_package: &str) -> (r: bool)
        ensures
            r == spec_compat_exists(self.constraints(), package@, compat_package@),
    {
        let mut i: usize = 0;
        while i < self.constraints.len()
            invariant
                i <= self.constraints@.len(),
                forall|j: int|
                    0 <= j < i ==> #[trigger] self.constraints()[j] != SConstraint::Compat(
                        package@,
                        compat_package@,
                    ),
            decreases self.constraints@.len() - i,
        {
            assert(self.constraints()[i as int] == self.constraints@[i as int]@);
            let found = match &self.constraints[i] {
                Constraint::Compat(p, c) => str_eq(p.as_str(), package) && str_eq(c.as_str(), compat_package),
                _ => false,
            };
            if found {
                assert(self.constraints()[i as int] == SConstraint::Compat(package@, compat_package@));
                return true;
            }
            i = i + 1;
        }
        false
    }

    /// Creates an error if this package is disallowed in the constraints
    pub fn check_constraints(&self, id: &str) -> (r: Result<(), ResolutionError>)
        ensures
            spec_is_refused(self.constraints(), id@) ==> (r matches Err(e) && e@ == SResolutionError::Refused(
                id@,
                spec_refusers(self.constraints(), id@),
            )),
            !spec_is_refused(self.constraints(), id@) ==> r is Ok,
    {
        if self.is_refused(id) {
            let refusers = self.get_refusers(id);
            return Err(ResolutionError::Refused { package: owned(id), refusers });
        }
        Ok(())
    }

    /// Remove the require constraint of a package if it exists
    pub fn remove_require_constraint(&mut self, id: &str)
        ensures
            final(self).constraints() == spec_remove_require(old(self).constraints(), id@),
            final(self).tasks() == old(self).tasks(),
    {
        let ghost cs = self.constraints();
        let ghost ts = self.tasks();
        let mut i: usize = 0;
        while i < self.constraints.len()
            invariant
                i <= self.constraints@.len(),
                cs == self.constraints(),
                ts == self.tasks(),
                cs == old(self).constraints(),
                ts == old(self).tasks(),
                forall|j: int| 0 <= j < i ==> !#[trigger] requires_package(cs[j], id@),
            decreases self.constraints@.len() - i,
        {
            if self.is_required_at(i, id) {
                let ghost k = first_require_index(cs, id@);
                proof {
                    assert(requires_package(cs[i as int], id@));
                    assert(spec_is_required(cs, id@));
                    if k < i {
                        assert(!requires_package(cs[k], id@));
                    }
                    if i < k {
                        assert(!requires_package(cs[i as int], id@));
                    }
                    assert(k == i);
                }
                self.constraints.swap_remove(i);
                proof {
                    assert(self.constraints() =~= cs.update(i as int, cs.last()).drop_last());
                    assert(self.tasks() == ts);
                }
                return;
            }
            i = i + 1;
        }
    }

    /// The packages that the constraints require, for the final output
    pub fn collect_packages(&self) -> (r: Vec<String>)
        ensures
            r.deep_view() == spec_collect_packages(self.constraints()),
    {
        let mut out: Vec<String> = Vec::new();
        let mut i: usize = 0;
        proof {
            assert(self.constraints().take(0) =~= Seq::<SConstraint>::empty());
            assert(out.deep_view() =~= Seq::<Seq<char>>::empty());
        }
        while i < self.constraints.len()
            invariant
                i <= self.constraints@.len(),
                out.deep_view() == spec_collect_packages(self.constraints().take(i as int)),
            decreases self.constraints@.len() - i,
        {
            proof {
                assert(self.constraints().take(i + 1).drop_last() =~= self.constraints().take(i as int));
            }
            let ghost before = out.deep_view();
            match &self.constraints[i] {
                Constraint::Require(d) | Constraint::UserRequire(d) | Constraint::Bundle(d, _) => {
                    out.push(d.clone());
                    proof {
                        assert(out.deep_view() =~= before.push(d@));
                    }
                },
                _ => {},
            }
            i = i + 1;
        }
        proof {
            assert(self.constraints().take(self.constraints@.len() as int) =~= self.constraints());
        }
        out
    }
}

/// The mathematical state of resolution: the tasks left and the constraints.
pub struct RState {
    pub tasks: Seq<STask>,
    pub cs: Seq<SConstraint>,
}

/// The outcome of a resolution step: the new state, or an error with the state in
/// which it came.
pub type RStep = Result<RState, (SResolutionError, RState)>;

/// Taking the items in order, each by the step, stopping at the first error.
pub open spec fn fold_steps<A>(st: RState, items: Seq<A>, step: spec_fn(RState, A) -> RStep) -> RStep
    decreases items.len(),
{
    if items.len() == 0 {
        Ok(st)
    } else {
        match fold_steps(st, items.drop_last(), step) {
            Ok(s2) => step(s2, items.last()),
            Err(e) => Err(e),
        }
    }
}

proof fn lemma_fold_stays_failed<A>(
    st: RState,
    items: Seq<A>,
    step: spec_fn(RState, A) -> RStep,
    j: int,
    n: int,
)
    requires
        0 <= j <= n <= items.len(),
        fold_steps(st, items.take(j), step) is Err,
    ensures
        fold_steps(st, items.take(n), step) == fold_steps(st, items.take(j), step),
    decreases n - j,
{
    if n > j {
        lemma_fold_stays_failed(st, items, step, j, n - 1);
        assert(items.take(n).drop_last() =~= items.take(n - 1));
    }
}

proof fn lemma_fold_next<A>(st: RState, items: Seq<A>, step: spec_fn(RState, A) -> RStep, i: int)
    requires
        0 <= i < items.len(),
    ensures
        fold_steps(st, items.take(i + 1), step) == match fold_steps(st, items.take(i), step) {
            Ok(s2) => step(s2, items[i]),
            Err(e) => Err(e),
        },
{
    assert(items.take(i + 1).drop_last() =~= items.take(i));
    assert(items.take(i + 1).last() == items[i]);
}

/// An executable outcome compared with a mathematical one.
pub open spec fn outcome_is(o: RStep, r: Result<(), ResolutionError>, st: RState) -> bool {
    match o {
        Ok(s) => r is Ok && st == s,
        Err((e, s)) => r matches Err(x) && x@ == e && st == s,
    }
}

/// A package's conflict: it is refused, unless it is already required.
pub open spec fn conflict_step(package: Seq<char>) -> spec_fn(RState, Seq<char>) -> RStep {
    |st: RState, c: Seq<char>|
        if spec_is_required(st.cs, c) {
            Err((SResolutionError::Incompatible(c, package), st))
        } else {
            Ok(RState { cs: st.cs.push(SConstraint::Refuse(c, package)), ..st })
        }
}

/// A package's dependency: an explicit one must be required by the user, a refused
/// one fails, and one that is not required yet becomes required and is evaluated.
pub open spec fn dep_step(package: Seq<char>) -> spec_fn(RState, (Seq<char>, bool)) -> RStep {
    |st: RState, d: (Seq<char>, bool)|
        if d.1 && !spec_is_user_required(st.cs, d.0) {
            Err((SResolutionError::ExplicitRequire(d.0, package), st))
        } else if spec_is_refused(st.cs, d.0) {
            Err((SResolutionError::Refused(d.0, spec_refusers(st.cs, d.0)), st))
        } else if !spec_is_required(st.cs, d.0) {
            Ok(
                RState {
                    tasks: st.tasks.push((d.0, false, false)),
                    cs: st.cs.push(SConstraint::Require(d.0)),
                },
            )
        } else {
            Ok(st)
        }
}

/// A bundled package: a refused one fails, and otherwise its require constraint gives
/// way to a bundle constraint and it is evaluated.
pub open spec fn bundle_step(user_bundled: bool) -> spec_fn(RState, Seq<char>) -> RStep {
    |st: RState, b: Seq<char>|
        if spec_is_refused(st.cs, b) {
            Err((SResolutionError::Refused(b, spec_refusers(st.cs, b)), st))
        } else {
            Ok(
                RState {
                    tasks: st.tasks.push((b, false, user_bundled)),
                    cs: spec_remove_require(st.cs, b).push(SConstraint::Bundle(b, user_bundled)),
                },
            )
        }
}

/// A compat between two packages, recorded once.
pub open spec fn compat_step() -> spec_fn(RState, (Seq<char>, Seq<char>)) -> RStep {
    |st: RState, pc: (Seq<char>, Seq<char>)|
        if spec_compat_exists(st.cs, pc.0, pc.1) {
            Ok(st)
        } else {
            Ok(RState { cs: st.cs.push(SConstraint::Compat(pc.0, pc.1)), ..st })
        }
}

/// An extension of a package.
pub open spec fn extend_step(package: Seq<char>) -> spec_fn(RState, Seq<char>) -> RStep {
    |st: RState, e: Seq<char>| Ok(RState { cs: st.cs.push(SConstraint::Extend(e, package)), ..st })
}

/// A recommendation.
pub open spec fn recommend_step() -> spec_fn(RState, (Seq<char>, bool)) -> RStep {
    |st: RState, r: (Seq<char>, bool)| Ok(RState { cs: st.cs.push(SConstraint::Recommend(r.0, r.1)), ..st })
}

/// The relations of a package, as its evaluation gives them
#[derive(Debug, Clone, PartialEq, Eq)]
pub struct PackageRelations {
    /// The groups of dependencies
    pub deps: Vec<Vec<RequiredPackage>>,
    /// The packages it conflicts with
    pub conflicts: Vec<String>,
    /// The packages it recommends
    pub recommendations: Vec<RecommendedPackage>,
    /// The packages it bundles
    pub bundled: Vec<String>,
    /// The compats: where the first package is installed, the second is too
    pub compats: Vec<(String, String)>,
    /// The packages it extends
    pub extensions: Vec<String>,
}

/// The mathematical value of a package's relations.
pub struct SRelations {
    pub deps: Seq<Seq<(Seq<char>, bool)>>,
    pub conflicts: Seq<Seq<char>>,
    pub recommendations: Seq<(Seq<char>, bool)>,
    pub bundled: Seq<Seq<char>>,
    pub compats: Seq<(Seq<char>, Seq<char>)>,
    pub extensions: Seq<Seq<char>>,
}

impl View for PackageRelations {
    type V = SRelations;

    open spec fn view(&self) -> SRelations {
        SRelations {
            deps: self.deps@.map_values(|g: Vec<RequiredPackage>| crate::script_eval::required_view(g@)),
            conflicts: self.conflicts.deep_view(),
            recommendations: self.recommendations@.map_values(|r: RecommendedPackage| (r.value@, r.invert)),
            bundled: self.bundled.deep_view(),
            compats: views(self.compats@),
            extensions: self.extensions.deep_view(),
        }
    }
}

/// Handling the relations of a package that was evaluated for the task: its conflicts,
/// dependencies, bundled packages, compats, extensions and recommendations, each kind
/// in ascending order.
pub open spec fn spec_apply_relations(st: RState, task: STask, rel: SRelations) -> RStep {
    let package = task.0;
    match fold_steps(st, rel.conflicts.sort_by(String::key_order()), conflict_step(package)) {
        Ok(s1) => match fold_steps(
            s1,
            rel.deps.flatten().sort_by(<(String, bool)>::key_order()),
            dep_step(package),
        ) {
            Ok(s2) => match fold_steps(s2, rel.bundled.sort_by(String::key_order()), bundle_step(task.2)) {
                Ok(s3) => match fold_steps(
                    s3,
                    rel.compats.sort_by(<(String, String)>::key_order()),
                    compat_step(),
                ) {
                    Ok(s4) => match fold_steps(
                        s4,
                        rel.extensions.sort_by(String::key_order()),
                        extend_step(package),
                    ) {
                        Ok(s5) => fold_steps(
                            s5,
                            rel.recommendations.sort_by(<(String, bool)>::key_order()),
                            recommend_step(),
                        ),
                        Err(e) => Err(e),
                    },
                    Err(e) => Err(e),
                },
                Err(e) => Err(e),
            },
            Err(e) => Err(e),
        },
        Err(e) => Err(e),
    }
}

/// The groups of dependencies as one sequence of (package, explicit) pairs
fn flatten_deps(groups: &Vec<Vec<RequiredPackage>>) -> (r: Vec<(String, bool)>)
    ensures
        views(r@) == groups@.map_values(|g: Vec<RequiredPackage>| crate::script_eval::required_view(g@)).flatten(),
{
    let ghost gs = groups@.map_values(|g: Vec<RequiredPackage>| crate::script_eval::required_view(g@));
    let mut out: Vec<(String, bool)> = Vec::new();
    let mut i: usize = 0;
    proof {
        assert(gs.take(0) =~= Seq::<Seq<(Seq<char>, bool)>>::empty());
        assert(views(out@) =~= Seq::<(Seq<char>, bool)>::empty());
    }
    while i < groups.len()
        invariant
            i <= groups@.len(),
            gs == groups@.map_values(|g: Vec<RequiredPackage>| crate::script_eval::required_view(g@)),
            views(out@) == gs.take(i as int).flatten(),
        decreases groups@.len() - i,
    {
        let group = &groups[i];
        let ghost start = views(out@);
        let mut j: usize = 0;
        proof {
            assert(crate::script_eval::required_view(group@).take(0) =~= Seq::<(Seq<char>, bool)>::empty());
            assert(start + crate::script_eval::required_view(group@).take(0) =~= start);
        }
        while j < group.len()
            invariant
                j <= group@.len(),
                views(out@) == start + crate::script_eval::required_view(group@).take(j as int),
            decreases group@.len() - j,
        {
            let ghost before = views(out@);
            out.push((group[j].value.clone(), group[j].explicit));
            proof {
                assert(views(out@) =~= before.push((group@[j as int].value@, group@[j as int].explicit)));
                assert(crate::script_eval::required_view(group@).take(j + 1) =~= crate::script_eval::required_view(
                    group@,
                ).take(j as int).push((group@[j as int].value@, group@[j as int].explicit)));
            }
            j = j + 1;
        }
        proof {
            assert(crate::script_eval::required_view(group@).take(group@.len() as int) =~= gs[i as int]);
            assert(gs.take(i + 1) =~= gs.take(i as int).push(gs[i as int]));
            gs.take(i as int).lemma_flatten_push(gs[i as int]);
        }
        i = i + 1;
    }
    proof {
        assert(gs.take(groups@.len() as int) =~= gs);
    }
    out
}

/// The recommendations as (package, invert) pairs
fn recommendation_pairs(recs: &Vec<RecommendedPackage>) -> (r: Vec<(String, bool)>)
    ensures
        views(r@) == recs@.map_values(|r: RecommendedPackage| (r.value@, r.invert)),
{
    let mut out: Vec<(String, bool)> = Vec::new();
    let mut i: usize = 0;
    while i < recs.len()
        invariant
            i <= recs@.len(),
            views(out@) == recs@.take(i as int).map_values(|r: RecommendedPackage| (r.value@, r.invert)),
        decreases recs@.len() - i,
    {
        let ghost before = views(out@);
        let ghost item = (recs@[i as int].value@, recs@[i as int].invert);
        out.push((recs[i].value.clone(), recs[i].invert));
        proof {
            assert(views(out@) =~= before.push(item));
            assert(recs@.take(i + 1).map_values(|r: RecommendedPackage| (r.value@, r.invert)) =~= recs@.take(
                i as int,
            ).map_values(|r: RecommendedPackage| (r.value@, r.invert)).push(item));
        }
        i = i + 1;
    }
    proof {
        assert(recs@.take(recs@.len() as int) =~= recs@);
    }
    out
}

/// The deep view of strings is their views.
proof fn lemma_string_views(v: Vec<String>)
    ensures
        v.deep_view() == views(v@),
{
    assert(v.deep_view() =~= views(v@));
}

/// The resolution of a set of packages
#[derive(Debug, Clone, PartialEq, Eq)]
pub struct ResolutionResult {
    /// The list of packages to install
    pub packages: Vec<String>,
    /// Package recommendations that were not satisfied
    pub unfulfilled_recommendations: Vec<RecommendedPackage>,
}

/// The recommendations that are not satisfied by the first `n` constraints, or the
/// error of the first extension of a package that is not installed.
pub open spec fn spec_unfulfilled(cs: Seq<SConstraint>, n: nat) -> Result<Seq<(Seq<char>, bool)>, SResolutionError>
    decreases n,
{
    if n == 0 || n > cs.len() {
        Ok(Seq::empty())
    } else {
        match spec_unfulfilled(cs, (n - 1) as nat) {
            Ok(recs) => match cs[n - 1] {
                SConstraint::Recommend(p, invert) => if invert == spec_is_required(cs, p) {
                    Ok(recs.push((p, invert)))
                } else {
                    Ok(recs)
                },
                SConstraint::Extend(p, by) => if spec_is_required(cs, p) {
                    Ok(recs)
                } else {
                    Err(SResolutionError::ExtensionMissing(p, by))
                },
                _ => Ok(recs),
            },
            Err(e) => Err(e),
        }
    }
}

/// The packages that the compat constraints add: those whose partner is required
/// while they are not, for each of the first `n` constraints.
pub open spec fn spec_compat_additions(cs: Seq<SConstraint>, n: nat) -> Seq<Seq<char>>
    decreases n,
{
    if n == 0 || n > cs.len() {
        Seq::empty()
    } else {
        let rest = spec_compat_additions(cs, (n - 1) as nat);
        match cs[n - 1] {
            SConstraint::Compat(p, c) => if spec_is_required(cs, p) && !spec_is_required(cs, c) {
                rest.push(c)
            } else {
                rest
            },
            _ => rest,
        }
    }
}

impl Resolver {
    /// The state of resolution.
    pub closed spec fn state(&self) -> RState {
        RState { tasks: self.tasks(), cs: self.constraints() }
    }

    /// Starts resolving the packages that the user requires: each, in ascending order,
    /// is required and evaluated with its configuration
    pub fn new(packages: Vec<String>) -> (r: Resolver)
        ensures
            r.constraints() == views(packages@).sort_by(String::key_order()).map_values(
                |p: Seq<char>| SConstraint::UserRequire(p),
            ),
            r.tasks() == views(packages@).sort_by(String::key_order()).map_values(
                |p: Seq<char>| (p, true, true),
            ),
    {
        let ids = sorted(packages);
        let mut tasks: VecDeque<Task> = VecDeque::new();
        let mut constraints: Vec<Constraint> = Vec::new();
        let mut i: usize = 0;
        while i < ids.len()
            invariant
                i <= ids@.len(),
                views(constraints@) == views(ids@).take(i as int).map_values(
                    |p: Seq<char>| SConstraint::UserRequire(p),
                ),
                views(tasks@) == views(ids@).take(i as int).map_values(|p: Seq<char>| (p, true, true)),
            decreases ids@.len() - i,
        {
            let ghost cb = views(constraints@);
            let ghost tb = views(tasks@);
            let ghost p = ids@[i as int]@;
            constraints.push(Constraint::UserRequire(ids[i].clone()));
            tasks.push_back(Task { package: ids[i].clone(), configured: true, user_bundled: true });
            proof {
                assert(views(constraints@) =~= cb.push(SConstraint::UserRequire(p)));
                assert(views(tasks@) =~= tb.push((p, true, true)));
                assert(views(ids@).take(i + 1) =~= views(ids@).take(i as int).push(p));
                assert(views(constraints@) =~= views(ids@).take(i + 1).map_values(
                    |p: Seq<char>| SConstraint::UserRequire(p),
                ));
                assert(views(tasks@) =~= views(ids@).take(i + 1).map_values(|p: Seq<char>| (p, true, true)));
            }
            i = i + 1;
        }
        proof {
            assert(views(ids@).take(ids@.len() as int) =~= views(ids@));
        }
        Resolver { tasks, constraints }
    }

    /// Takes the next task to resolve, if any is left
    pub fn next_task(&mut self) -> (r: Option<Task>)
        ensures
            old(self).tasks().len() == 0 ==> r is None && final(self).state() == old(self).state(),
            old(self).tasks().len() > 0 ==> (r matches Some(t) && t@ == old(self).tasks()[0]
                && final(self).tasks() == old(self).tasks().drop_first()
                && final(self).constraints() == old(self).constraints()),
    {
        let r = self.tasks.pop_front();
        proof {
            if old(self).tasks@.len() > 0 {
                assert(self.tasks() =~= old(self).tasks().drop_first());
            }
        }
        r
    }

    fn push_constraint(&mut self, c: Constraint)
        ensures
            final(self).constraints() == old(self).constraints().push(c@),
            final(self).tasks() == old(self).tasks(),
    {
        self.constraints.push(c);
        proof {
            assert(self.constraints() =~= old(self).constraints().push(c@));
        }
    }

    fn push_task(&mut self, t: Task)
        ensures
            final(self).tasks() == old(self).tasks().push(t@),
            final(self).constraints() == old(self).constraints(),
    {
        self.tasks.push_back(t);
        proof {
            assert(self.tasks() =~= old(self).tasks().push(t@));
        }
    }

    fn apply_conflicts(&mut self, package: &String, items: &Vec<String>) -> (r: Result<(), ResolutionError>)
        ensures
            outcome_is(fold_steps(old(self).state(), views(items@), conflict_step(package@)), r, final(self).state()),
    {
        let ghost st0 = self.state();
        let ghost its = views(items@);
        let ghost step = conflict_step(package@);
        let mut i: usize = 0;
        proof {
            assert(its.take(0) =~= Seq::<Seq<char>>::empty());
        }
        while i < items.len()
            invariant
                i <= items@.len(),
                its == views(items@),
                step == conflict_step(package@),
                st0 == old(self).state(),
                fold_steps(st0, its.take(i as int), step) == Ok::<RState, (SResolutionError, RState)>(self.state()),
            decreases items@.len() - i,
        {
            proof {
                lemma_fold_next(st0, its, step, i as int);
            }
            let c = &items[i];
            if self.is_required(c.as_str()) {
                proof {
                    lemma_fold_stays_failed(st0, its, step, i + 1, its.len() as int);
                    assert(its.take(its.len() as int) =~= its);
                }
                return Err(ResolutionError::Incompatible { package: c.clone(), refuser: package.clone() });
            }
            self.push_constraint(Constraint::Refuse(c.clone(), package.clone()));
            i = i + 1;
        }
        proof {
            assert(its.take(its.len() as int) =~= its);
        }
        Ok(())
    }

    fn apply_deps(&mut self, package: &String, items: &Vec<(String, bool)>) -> (r: Result<(), ResolutionError>)
        ensures
            outcome_is(fold_steps(old(self).state(), views(items@), dep_step(package@)), r, final(self).state()),
    {
        let ghost st0 = self.state();
        let ghost its = views(items@);
        let ghost step = dep_step(package@);
        let mut i: usize = 0;
        proof {
            assert(its.take(0) =~= Seq::<(Seq<char>, bool)>::empty());
        }
        while i < items.len()
            invariant
                i <= items@.len(),
                its == views(items@),
                step == dep_step(package@),
                st0 == old(self).state(),
                fold_steps(st0, its.take(i as int), step) == Ok::<RState, (SResolutionError, RState)>(self.state()),
            decreases items@.len() - i,
        {
            proof {
                lemma_fold_next(st0, its, step, i as int);
            }
            let d = &items[i].0;
            let explicit = items[i].1;
            if explicit && !self.is_user_required(d.as_str()) {
                proof {
                    lemma_fold_stays_failed(st0, its, step, i + 1, its.len() as int);
                    assert(its.take(its.len() as int) =~= its);
                }
                return Err(ResolutionError::ExplicitRequire { package: d.clone(), dependent: package.clone() });
            }
            match self.check_constraints(d.as_str()) {
                Err(e) => {
                    proof {
                        lemma_fold_stays_failed(st0, its, step, i + 1, its.len() as int);
                        assert(its.take(its.len() as int) =~= its);
                    }
                    return Err(e);
                },
                Ok(()) => {},
            }
            if !self.is_required(d.as_str()) {
                self.push_constraint(Constraint::Require(d.clone()));
                self.push_task(Task { package: d.clone(), configured: false, user_bundled: false });
            }
            i = i + 1;
        }
        proof {
            assert(its.take(its.len() as int) =~= its);
        }
        Ok(())
    }

    fn apply_bundled(&mut self, user_bundled: bool, items: &Vec<String>) -> (r: Result<(), ResolutionError>)
        ensures
            outcome_is(fold_steps(old(self).state(), views(items@), bundle_step(user_bundled)), r, final(self).state()),
    {
        let ghost st0 = self.state();
        let ghost its = views(items@);
        let ghost step = bundle_step(user_bundled);
        let mut i: usize = 0;
        proof {
            assert(its.take(0) =~= Seq::<Seq<char>>::empty());
        }
        while i < items.len()
            invariant
                i <= items@.len(),
                its == views(items@),
                step == bundle_step(user_bundled),
                st0 == old(self).state(),
                fold_steps(st0, its.take(i as int), step) == Ok::<RState, (SResolutionError, RState)>(self.state()),
            decreases items@.len() - i,
        {
            proof {
                lemma_fold_next(st0, its, step, i as int);
            }
            let b = &items[i];
            match self.check_constraints(b.as_str()) {
                Err(e) => {
                    proof {
                        lemma_fold_stays_failed(st0, its, step, i + 1, its.len() as int);
                        assert(its.take(its.len() as int) =~= its);
                    }
                    return Err(e);
                },
                Ok(()) => {},
            }
            self.remove_require_constraint(b.as_str());
            self.push_constraint(Constraint::Bundle(b.clone(), user_bundled));
            self.push_task(Task { package: b.clone(), configured: false, user_bundled });
            i = i + 1;
        }
        proof {
            assert(its.take(its.len() as int) =~= its);
        }
        Ok(())
    }

    fn apply_compats(&mut self, items: &Vec<(String, String)>)
        ensures
            fold_steps(old(self).state(), views(items@), compat_step()) == Ok::<RState, (SResolutionError, RState)>(
                final(self).state(),
            ),
    {
        let ghost st0 = self.state();
        let ghost its = views(items@);
        let ghost step = compat_step();
        let mut i: usize = 0;
        proof {
            assert(its.take(0) =~= Seq::<(Seq<char>, Seq<char>)>::empty());
        }
        while i < items.len()
            invariant
                i <= items@.len(),
                its == views(items@),
                step == compat_step(),
                st0 == old(self).state(),
                fold_steps(st0, its.take(i as int), step) == Ok::<RState, (SResolutionError, RState)>(self.state()),
            decreases items@.len() - i,
        {
            proof {
                lemma_fold_next(st0, its, step, i as int);
            }
            let p = &items[i].0;
            let c = &items[i].1;
            if !self.compat_exists(p.as_str(), c.as_str()) {
                self.push_constraint(Constraint::Compat(p.clone(), c.clone()));
            }
            i = i + 1;
        }
        proof {
            assert(its.take(its.len() as int) =~= its);
        }
    }

    fn apply_extensions(&mut self, package: &String, items: &Vec<String>)
        ensures
            fold_steps(old(self).state(), views(items@), extend_step(package@)) == Ok::<
                RState,
                (SResolutionError, RState),
            >(final(self).state()),
    {
        let ghost st0 = self.state();
        let ghost its = views(items@);
        let ghost step = extend_step(package@);
        let mut i: usize = 0;
        proof {
            assert(its.take(0) =~= Seq::<Seq<char>>::empty());
        }
        while i < items.len()
            invariant
                i <= items@.len(),
                its == views(items@),
                step == extend_step(package@),
                st0 == old(self).state(),
                fold_steps(st0, its.take(i as int), step) == Ok::<RState, (SResolutionError, RState)>(self.state()),
            decreases items@.len() - i,
        {
            proof {
                lemma_fold_next(st0, its, step, i as int);
            }
            self.push_constraint(Constraint::Extend(items[i].clone(), package.clone()));
            i = i + 1;
        }
        proof {
            assert(its.take(its.len() as int) =~= its);
        }
    }

    fn apply_recommendations(&mut self, items: &Vec<(String, bool)>)
        ensures
            fold_steps(old(self).state(), views(items@), recommend_step()) == Ok::<RState, (SResolutionError, RState)>(
                final(self).state(),
            ),
    {
        let ghost st0 = self.state();
        let ghost its = views(items@);
        let ghost step = recommend_step();
        let mut i: usize = 0;
        proof {
            assert(its.take(0) =~= Seq::<(Seq<char>, bool)>::empty());
        }
        while i < items.len()
            invariant
                i <= items@.len(),
                its == views(items@),
                step == recommend_step(),
                st0 == old(self).state(),
                fold_steps(st0, its.take(i as int), step) == Ok::<RState, (SResolutionError, RState)>(self.state()),
            decreases items@.len() - i,
        {
            proof {
                lemma_fold_next(st0, its, step, i as int);
            }
            self.push_constraint(Constraint::Recommend(items[i].0.clone(), items[i].1));
            i = i + 1;
        }
        proof {
            assert(its.take(its.len() as int) =~= its);
        }
    }
}

/// The constraints after checking compats: each package that a compat adds is required.
pub open spec fn spec_compats_checked(cs: Seq<SConstraint>) -> Seq<SConstraint> {
    cs + spec_compat_additions(cs, cs.len()).map_values(|p: Seq<char>| SConstraint::Require(p))
}

impl Resolver {
    /// Handles the relations that evaluating the task's package gave: its conflicts are
    /// refused, its dependencies and bundled packages are required and queued for
    /// evaluation, and its compats, extensions and recommendations are recorded
    pub fn apply_relations(&mut self, task: &Task, relations: PackageRelations) -> (r: Result<(), ResolutionError>)
        ensures
            outcome_is(spec_apply_relations(old(self).state(), task@, relations@), r, final(self).state()),
    {
        let ghost rel = relations@;
        let PackageRelations { deps, conflicts, recommendations, bundled, compats, extensions } = relations;
        proof {
            lemma_string_views(conflicts);
            lemma_string_views(bundled);
            lemma_string_views(extensions);
        }
        let conflicts = sorted(conflicts);
        match self.apply_conflicts(&task.package, &conflicts) {
            Err(e) => return Err(e),
            Ok(()) => {},
        }
        let deps = sorted(flatten_deps(&deps));
        match self.apply_deps(&task.package, &deps) {
            Err(e) => return Err(e),
            Ok(()) => {},
        }
        let bundled = sorted(bundled);
        match self.apply_bundled(task.user_bundled, &bundled) {
            Err(e) => return Err(e),
            Ok(()) => {},
        }
        let compats = sorted(compats);
        self.apply_compats(&compats);
        let extensions = sorted(extensions);
        self.apply_extensions(&task.package, &extensions);
        let recommendations = sorted(recommendation_pairs(&recommendations));
        self.apply_recommendations(&recommendations);
        Ok(())
    }

    /// Checks compat constraints to see if new constraints are needed: where a compat's
    /// package is required and its partner is not, the partner is required and queued
    pub fn check_compats(&mut self)
        ensures
            final(self).constraints() == spec_compats_checked(old(self).constraints()),
            final(self).tasks() == old(self).tasks() + spec_compat_additions(
                old(self).constraints(),
                old(self).constraints().len(),
            ).map_values(|p: Seq<char>| (p, false, false)),
    {
        let ghost cs = self.constraints();
        let mut adds: Vec<String> = Vec::new();
        let mut i: usize = 0;
        proof {
            assert(views(adds@) =~= Seq::<Seq<char>>::empty());
        }
        while i < self.constraints.len()
            invariant
                i <= self.constraints@.len(),
                cs == self.constraints(),
                views(adds@) == spec_compat_additions(cs, i as nat),
            decreases self.constraints@.len() - i,
        {
            let ghost before = views(adds@);
            assert(self.constraints()[i as int] == self.constraints@[i as int]@);
            match &self.constraints[i] {
                Constraint::Compat(p, c) => {
                    if self.is_required(p.as_str()) && !self.is_required(c.as_str()) {
                        adds.push(c.clone());
                        proof {
                            assert(views(adds@) =~= before.push(c@));
                        }
                    }
                },
                _ => {},
            }
            i = i + 1;
        }
        let ghost added = views(adds@);
        let ghost ts = self.tasks();
        let mut j: usize = 0;
        proof {
            assert(cs + added.take(0).map_values(|p: Seq<char>| SConstraint::Require(p)) =~= cs);
            assert(ts + added.take(0).map_values(|p: Seq<char>| (p, false, false)) =~= ts);
        }
        while j < adds.len()
            invariant
                j <= adds@.len(),
                added == views(adds@),
                self.constraints() == cs + added.take(j as int).map_values(|p: Seq<char>| SConstraint::Require(p)),
                self.tasks() == ts + added.take(j as int).map_values(|p: Seq<char>| (p, false, false)),
            decreases adds@.len() - j,
        {
            let ghost cb = self.constraints();
            let ghost tb = self.tasks();
            self.push_constraint(Constraint::Require(adds[j].clone()));
            self.push_task(Task { package: adds[j].clone(), configured: false, user_bundled: false });
            proof {
                assert(added.take(j + 1) =~= added.take(j as int).push(added[j as int]));
                assert(self.constraints() =~= cs + added.take(j + 1).map_values(
                    |p: Seq<char>| SConstraint::Require(p),
                ));
                assert(self.tasks() =~= ts + added.take(j + 1).map_values(|p: Seq<char>| (p, false, false)));
            }
            j = j + 1;
        }
        proof {
            assert(added.take(adds@.len() as int) =~= added);
        }
    }

    /// Finishes resolution: every extended package must be installed, and the result is
    /// the required packages with the recommendations that were not satisfied
    pub fn finish(&self) -> (r: Result<ResolutionResult, ResolutionError>)
        ensures
            match spec_unfulfilled(self.constraints(), self.constraints().len()) {
                Ok(recs) => r matches Ok(res) && res.packages.deep_view() == spec_collect_packages(
                    self.constraints(),
                ) && res.unfulfilled_recommendations@.map_values(
                    |r: RecommendedPackage| (r.value@, r.invert),
                ) == recs,
                Err(e) => r matches Err(x) && x@ == e,
            },
    {
        let ghost cs = self.constraints();
        let mut recs: Vec<RecommendedPackage> = Vec::new();
        let mut i: usize = 0;
        proof {
            assert(recs@.map_values(|r: RecommendedPackage| (r.value@, r.invert)) =~= Seq::<
                (Seq<char>, bool),
            >::empty());
        }
        while i < self.constraints.len()
            invariant
                i <= self.constraints@.len(),
                cs == self.constraints(),
                spec_unfulfilled(cs, i as nat) == Ok::<Seq<(Seq<char>, bool)>, SResolutionError>(
                    recs@.map_values(|r: RecommendedPackage| (r.value@, r.invert)),
                ),
            decreases self.constraints@.len() - i,
        {
            let ghost before = recs@.map_values(|r: RecommendedPackage| (r.value@, r.invert));
            assert(self.constraints()[i as int] == self.constraints@[i as int]@);
            match &self.constraints[i] {
                Constraint::Recommend(p, invert) => {
                    if *invert == self.is_required(p.as_str()) {
                        recs.push(RecommendedPackage { value: p.clone(), invert: *invert });
                        proof {
                            assert(recs@.map_values(|r: RecommendedPackage| (r.value@, r.invert)) =~= before.push(
                                (p@, *invert),
                            ));
                        }
                    }
                },
                Constraint::Extend(p, by) => {
                    if !self.is_required(p.as_str()) {
                        proof {
                            lemma_unfulfilled_stays_failed(cs, (i + 1) as nat, cs.len());
                        }
                        return Err(ResolutionError::ExtensionMissing { package: p.clone(), extender: by.clone() });
                    }
                },
                _ => {},
            }
            i = i + 1;
        }
        let packages = self.collect_packages();
        Ok(ResolutionResult { packages, unfulfilled_recommendations: recs })
    }
}

proof fn lemma_unfulfilled_stays_failed(cs: Seq<SConstraint>, j: nat, n: nat)
    requires
        j <= n <= cs.len(),
        spec_unfulfilled(cs, j) is Err,
    ensures
        spec_unfulfilled(cs, n) == spec_unfulfilled(cs, j),
    decreases n - j,
{
    if n > j {
        lemma_unfulfilled_stays_failed(cs, j, (n - 1) as nat);
    }
}

/// Every package that is required in the first state is required in the second.
pub open spec fn keeps_required(a: RState, b: RState) -> bool {
    forall|id: Seq<char>| spec_is_required(a.cs, id) ==> #[trigger] spec_is_required(b.cs, id)
}

/// The step keeps every required package required, wherever it succeeds.
pub open spec fn step_keeps_required<A>(step: spec_fn(RState, A) -> RStep) -> bool {
    forall|s: RState, a: A| #[trigger] step(s, a) is Ok ==> keeps_required(s, step(s, a)->Ok_0)
}

proof fn lemma_push_keeps_required(cs: Seq<SConstraint>, c: SConstraint)
    ensures
        forall|id: Seq<char>| spec_is_required(cs, id) ==> #[trigger] spec_is_required(cs.push(c), id),
{
    assert forall|id: Seq<char>| spec_is_required(cs, id) implies #[trigger] spec_is_required(cs.push(c), id) by {
        let k = choose|k: int| 0 <= k < cs.len() && #[trigger] requires_package(cs[k], id);
        assert(cs.push(c)[k] == cs[k]);
    }
}

#[verifier::spinoff_prover]
#[verifier::rlimit(40)]
proof fn lemma_remove_require_keeps(cs: Seq<SConstraint>, b: Seq<char>)
    ensures
        forall|id: Seq<char>|
            spec_is_required(cs, id) && id != b ==> #[trigger] spec_is_required(spec_remove_require(cs, b), id),
{
    assert forall|id: Seq<char>| spec_is_required(cs, id) && id != b implies #[trigger] spec_is_required(
        spec_remove_require(cs, b),
        id,
    ) by {
        let k = choose|k: int| 0 <= k < cs.len() && #[trigger] requires_package(cs[k], id);
        if spec_is_required(cs, b) {
            let i = first_require_index(cs, b);
            let out = spec_remove_require(cs, b);
            assert(0 <= i < cs.len() && requires_package(cs[i], b)) by {
                let w = choose|w: int| 0 <= w < cs.len() && #[trigger] requires_package(cs[w], b);
                lemma_first_index_exists(cs, b, w);
            }
            assert(k != i);
            if k == cs.len() - 1 {
                assert(out[i] == cs[k]);
                assert(requires_package(out[i], id));
            } else {
                assert(out[k] == cs[k]);
                assert(requires_package(out[k], id));
            }
        }
    }
}

proof fn lemma_first_index_exists(cs: Seq<SConstraint>, b: Seq<char>, w: int)
    requires
        0 <= w < cs.len(),
        requires_package(cs[w], b),
    ensures
        exists|i: int|
            0 <= i < cs.len() && requires_package(cs[i], b) && forall|j: int|
                0 <= j < i ==> !#[trigger] requires_package(cs[j], b),
    decreases w,
{
    if exists|j: int| 0 <= j < w && #[trigger] requires_package(cs[j], b) {
        let j = choose|j: int| 0 <= j < w && #[trigger] requires_package(cs[j], b);
        lemma_first_index_exists(cs, b, j);
    } else {
        assert(forall|j: int| 0 <= j < w ==> !#[trigger] requires_package(cs[j], b));
    }
}

proof fn lemma_steps_keep_required(package: Seq<char>, user_bundled: bool)
    ensures
        step_keeps_required(conflict_step(package)),
        step_keeps_required(dep_step(package)),
        step_keeps_required(bundle_step(user_bundled)),
        step_keeps_required(compat_step()),
        step_keeps_required(extend_step(package)),
        step_keeps_required(recommend_step()),
{
    assert forall|s: RState, a: Seq<char>| #[trigger] conflict_step(package)(s, a) is Ok implies keeps_required(
        s,
        conflict_step(package)(s, a)->Ok_0,
    ) by {
        lemma_push_keeps_required(s.cs, SConstraint::Refuse(a, package));
    }
    assert forall|s: RState, a: (Seq<char>, bool)| #[trigger] dep_step(package)(s, a) is Ok implies keeps_required(
        s,
        dep_step(package)(s, a)->Ok_0,
    ) by {
        lemma_push_keeps_required(s.cs, SConstraint::Require(a.0));
    }
    assert forall|s: RState, a: Seq<char>| #[trigger] bundle_step(user_bundled)(s, a) is Ok implies keeps_required(
        s,
        bundle_step(user_bundled)(s, a)->Ok_0,
    ) by {
        let removed = spec_remove_require(s.cs, a);
        lemma_remove_require_keeps(s.cs, a);
        lemma_push_keeps_required(removed, SConstraint::Bundle(a, user_bundled));
        let out = removed.push(SConstraint::Bundle(a, user_bundled));
        assert(requires_package(out[removed.len() as int], a));
    }
    assert forall|s: RState, a: (Seq<char>, Seq<char>)| #[trigger] compat_step()(s, a) is Ok implies keeps_required(
        s,
        compat_step()(s, a)->Ok_0,
    ) by {
        lemma_push_keeps_required(s.cs, SConstraint::Compat(a.0, a.1));
    }
    assert forall|s: RState, a: Seq<char>| #[trigger] extend_step(package)(s, a) is Ok implies keeps_required(
        s,
        extend_step(package)(s, a)->Ok_0,
    ) by {
        lemma_push_keeps_required(s.cs, SConstraint::Extend(a, package));
    }
    assert forall|s: RState, a: (Seq<char>, bool)| #[trigger] recommend_step()(s, a) is Ok implies keeps_required(
        s,
        recommend_step()(s, a)->Ok_0,
    ) by {
        lemma_push_keeps_required(s.cs, SConstraint::Recommend(a.0, a.1));
    }
}

proof fn lemma_fold_keeps_required<A>(st: RState, items: Seq<A>, step: spec_fn(RState, A) -> RStep)
    requires
        step_keeps_required(step),
        fold_steps(st, items, step) is Ok,
    ensures
        keeps_required(st, fold_steps(st, items, step)->Ok_0),
    decreases items.len(),
{
    if items.len() > 0 {
        lemma_fold_keeps_required(st, items.drop_last(), step);
        let s2 = fold_steps(st, items.drop_last(), step)->Ok_0;
        assert(step(s2, items.last()) is Ok);
    }
}

/// After the dependencies are taken, each of them is required.
proof fn lemma_fold_deps_required(st: RState, items: Seq<(Seq<char>, bool)>, package: Seq<char>)
    requires
        fold_steps(st, items, dep_step(package)) is Ok,
    ensures
        forall|k: int|
            0 <= k < items.len() ==> #[trigger] spec_is_required(
                fold_steps(st, items, dep_step(package))->Ok_0.cs,
                items[k].0,
            ),
    decreases items.len(),
{
    if items.len() > 0 {
        let rest = items.drop_last();
        lemma_fold_deps_required(st, rest, package);
        lemma_steps_keep_required(package, false);
        let s2 = fold_steps(st, rest, dep_step(package))->Ok_0;
        let t = dep_step(package)(s2, items.last());
        assert(t is Ok);
        let d = items.last();
        if !spec_is_required(s2.cs, d.0) {
            let cs = s2.cs.push(SConstraint::Require(d.0));
            assert(requires_package(cs[s2.cs.len() as int], d.0));
        }
        assert forall|k: int| 0 <= k < items.len() implies #[trigger] spec_is_required(t->Ok_0.cs, items[k].0) by {
            if k < items.len() - 1 {
                assert(items[k] == rest[k]);
                assert(spec_is_required(s2.cs, rest[k].0));
            }
        }
    }
}

/// After the bundled packages are taken, each of them is required.
proof fn lemma_fold_bundled_required(st: RState, items: Seq<Seq<char>>, user_bundled: bool)
    requires
        fold_steps(st, items, bundle_step(user_bundled)) is Ok,
    ensures
        forall|k: int|
            0 <= k < items.len() ==> #[trigger] spec_is_required(
                fold_steps(st, items, bundle_step(user_bundled))->Ok_0.cs,
                items[k],
            ),
    decreases items.len(),
{
    if items.len() > 0 {
        let rest = items.drop_last();
        lemma_fold_bundled_required(st, rest, user_bundled);
        lemma_steps_keep_required(Seq::empty(), user_bundled);
        let s2 = fold_steps(st, rest, bundle_step(user_bundled))->Ok_0;
        let t = bundle_step(user_bundled)(s2, items.last());
        assert(t is Ok);
        let b = items.last();
        let removed = spec_remove_require(s2.cs, b);
        let cs = removed.push(SConstraint::Bundle(b, user_bundled));
        assert(requires_package(cs[removed.len() as int], b));
        assert forall|k: int| 0 <= k < items.len() implies #[trigger] spec_is_required(t->Ok_0.cs, items[k]) by {
            if k < items.len() - 1 {
                assert(items[k] == rest[k]);
                assert(spec_is_required(s2.cs, rest[k]));
            }
        }
    }
}

/// An element of a sequence is an element of it sorted.
proof fn lemma_sorted_contains<A>(s: Seq<A>, leq: spec_fn(A, A) -> bool, k: int)
    requires
        vstd::relations::total_ordering(leq),
        0 <= k < s.len(),
    ensures
        s.sort_by(leq).contains(s[k]),
{
    broadcast use vstd::seq_lib::group_to_multiset_ensures;

    s.lemma_sort_by_ensures(leq);
    assert(s.contains(s[k]));
    assert(s.to_multiset().count(s[k]) > 0);
    assert(s.sort_by(leq).to_multiset().count(s[k]) > 0);
}

/// Handling the relations of an evaluated package keeps every required package
/// required, and where it succeeds, each dependency and each bundled package of the
/// evaluated package is required.
pub proof fn law_relations_require_dependencies(st: RState, task: STask, rel: SRelations)
    requires
        spec_apply_relations(st, task, rel) is Ok,
    ensures
        keeps_required(st, spec_apply_relations(st, task, rel)->Ok_0),
        forall|k: int|
            0 <= k < rel.deps.flatten().len() ==> #[trigger] spec_is_required(
                spec_apply_relations(st, task, rel)->Ok_0.cs,
                rel.deps.flatten()[k].0,
            ),
        forall|k: int|
            0 <= k < rel.bundled.len() ==> #[trigger] spec_is_required(
                spec_apply_relations(st, task, rel)->Ok_0.cs,
                rel.bundled[k],
            ),
{
    let package = task.0;
    lemma_steps_keep_required(package, task.2);
    String::lemma_key_order();
    <(String, bool)>::lemma_key_order();
    <(String, String)>::lemma_key_order();
    let conflicts = rel.conflicts.sort_by(String::key_order());
    let deps = rel.deps.flatten().sort_by(<(String, bool)>::key_order());
    let bundled = rel.bundled.sort_by(String::key_order());
    let compats = rel.compats.sort_by(<(String, String)>::key_order());
    let extensions = rel.extensions.sort_by(String::key_order());
    let recs = rel.recommendations.sort_by(<(String, bool)>::key_order());
    let s1 = fold_steps(st, conflicts, conflict_step(package))->Ok_0;
    let s2 = fold_steps(s1, deps, dep_step(package))->Ok_0;
    let s3 = fold_steps(s2, bundled, bundle_step(task.2))->Ok_0;
    let s4 = fold_steps(s3, compats, compat_step())->Ok_0;
    let s5 = fold_steps(s4, extensions, extend_step(package))->Ok_0;
    let s6 = fold_steps(s5, recs, recommend_step())->Ok_0;
    lemma_fold_keeps_required(st, conflicts, conflict_step(package));
    lemma_fold_keeps_required(s1, deps, dep_step(package));
    lemma_fold_keeps_required(s2, bundled, bundle_step(task.2));
    lemma_fold_keeps_required(s3, compats, compat_step());
    lemma_fold_keeps_required(s4, extensions, extend_step(package));
    lemma_fold_keeps_required(s5, recs, recommend_step());
    assert(spec_apply_relations(st, task, rel) == Ok::<RState, (SResolutionError, RState)>(s6));
    lemma_fold_deps_required(s1, deps, package);
    lemma_fold_bundled_required(s2, bundled, task.2);
    assert forall|k: int| 0 <= k < rel.deps.flatten().len() implies #[trigger] spec_is_required(
        s6.cs,
        rel.deps.flatten()[k].0,
    ) by {
        lemma_sorted_contains(rel.deps.flatten(), <(String, bool)>::key_order(), k);
        let j = choose|j: int| 0 <= j < deps.len() && deps[j] == rel.deps.flatten()[k];
        assert(spec_is_required(s2.cs, deps[j].0));
    }
    assert forall|k: int| 0 <= k < rel.bundled.len() implies #[trigger] spec_is_required(s6.cs, rel.bundled[k]) by {
        lemma_sorted_contains(rel.bundled, String::key_order(), k);
        let j = choose|j: int| 0 <= j < bundled.len() && bundled[j] == rel.bundled[k];
        assert(spec_is_required(s3.cs, bundled[j]));
    }
}

/// The tasks of `b` are those of `a` with perhaps more after them.
pub open spec fn extends_tasks(a: RState, b: RState) -> bool {
    &&& a.tasks.len() <= b.tasks.len()
    &&& forall|i: int| 0 <= i < a.tasks.len() ==> #[trigger] b.tasks[i] == a.tasks[i]
}

/// The step keeps the queued tasks and only adds to them, wherever it succeeds.
pub open spec fn step_extends_tasks<A>(step: spec_fn(RState, A) -> RStep) -> bool {
    forall|s: RState, a: A| #[trigger] step(s, a) is Ok ==> extends_tasks(s, step(s, a)->Ok_0)
}

proof fn lemma_steps_extend_tasks(package: Seq<char>, user_bundled: bool)
    ensures
        step_extends_tasks(conflict_step(package)),
        step_extends_tasks(dep_step(package)),
        step_extends_tasks(bundle_step(user_bundled)),
        step_extends_tasks(compat_step()),
        step_extends_tasks(extend_step(package)),
        step_extends_tasks(recommend_step()),
{
    assert forall|s: RState, a: (Seq<char>, bool)| #[trigger] dep_step(package)(s, a) is Ok implies extends_tasks(
        s,
        dep_step(package)(s, a)->Ok_0,
    ) by {
        let t = dep_step(package)(s, a)->Ok_0;
        assert forall|i: int| 0 <= i < s.tasks.len() implies #[trigger] t.tasks[i] == s.tasks[i] by {
            assert(s.tasks.push((a.0, false, false))[i] == s.tasks[i]);
        }
    }
    assert forall|s: RState, a: Seq<char>| #[trigger] bundle_step(user_bundled)(s, a) is Ok implies extends_tasks(
        s,
        bundle_step(user_bundled)(s, a)->Ok_0,
    ) by {
        let t = bundle_step(user_bundled)(s, a)->Ok_0;
        assert forall|i: int| 0 <= i < s.tasks.len() implies #[trigger] t.tasks[i] == s.tasks[i] by {
            assert(s.tasks.push((a, false, user_bundled))[i] == s.tasks[i]);
        }
    }
}

proof fn lemma_fold_extends_tasks<A>(st: RState, items: Seq<A>, step: spec_fn(RState, A) -> RStep)
    requires
        step_extends_tasks(step),
        fold_steps(st, items, step) is Ok,
    ensures
        extends_tasks(st, fold_steps(st, items, step)->Ok_0),
    decreases items.len(),
{
    if items.len() > 0 {
        lemma_fold_extends_tasks(st, items.drop_last(), step);
        let s2 = fold_steps(st, items.drop_last(), step)->Ok_0;
        assert(step(s2, items.last()) is Ok);
        let s3 = step(s2, items.last())->Ok_0;
        assert forall|i: int| 0 <= i < st.tasks.len() implies #[trigger] s3.tasks[i] == st.tasks[i] by {
            assert(s3.tasks[i] == s2.tasks[i]);
        }
    }
}

/// After the bundled packages are taken, each of them is queued for evaluation.
proof fn lemma_fold_bundled_queued(st: RState, items: Seq<Seq<char>>, user_bundled: bool)
    requires
        fold_steps(st, items, bundle_step(user_bundled)) is Ok,
    ensures
        forall|k: int|
            0 <= k < items.len() ==> fold_steps(st, items, bundle_step(user_bundled))->Ok_0.tasks.contains(
                (#[trigger] items[k], false, user_bundled),
            ),
    decreases items.len(),
{
    if items.len() > 0 {
        let rest = items.drop_last();
        lemma_fold_bundled_queued(st, rest, user_bundled);
        let s2 = fold_steps(st, rest, bundle_step(user_bundled))->Ok_0;
        let t = bundle_step(user_bundled)(s2, items.last());
        assert(t is Ok);
        let tasks = s2.tasks.push((items.last(), false, user_bundled));
        assert(t->Ok_0.tasks == tasks);
        assert forall|k: int| 0 <= k < items.len() implies tasks.contains((#[trigger] items[k], false, user_bundled)) by {
            if k < items.len() - 1 {
                assert(items[k] == rest[k]);
                let j = choose|j: int| 0 <= j < s2.tasks.len() && s2.tasks[j] == (rest[k], false, user_bundled);
                assert(tasks[j] == s2.tasks[j]);
            } else {
                assert(tasks[s2.tasks.len() as int] == (items[k], false, user_bundled));
            }
        }
    }
}

/// Handling the relations of an evaluated package keeps the queued tasks, and where it
/// succeeds, every package that the evaluated one bundles is queued for evaluation, as
/// bundled by the user exactly when the evaluated package's task was.
pub proof fn law_relations_queue_bundled(st: RState, task: STask, rel: SRelations)
    requires
        spec_apply_relations(st, task, rel) is Ok,
    ensures
        extends_tasks(st, spec_apply_relations(st, task, rel)->Ok_0),
        forall|k: int|
            0 <= k < rel.bundled.len() ==> spec_apply_relations(st, task, rel)->Ok_0.tasks.contains(
                (#[trigger] rel.bundled[k], false, task.2),
            ),
{
    let package = task.0;
    lemma_steps_extend_tasks(package, task.2);
    String::lemma_key_order();
    <(String, bool)>::lemma_key_order();
    <(String, String)>::lemma_key_order();
    let conflicts = rel.conflicts.sort_by(String::key_order());
    let deps = rel.deps.flatten().sort_by(<(String, bool)>::key_order());
    let bundled = rel.bundled.sort_by(String::key_order());
    let compats = rel.compats.sort_by(<(String, String)>::key_order());
    let extensions = rel.extensions.sort_by(String::key_order());
    let recs = rel.recommendations.sort_by(<(String, bool)>::key_order());
    let s1 = fold_steps(st, conflicts, conflict_step(package))->Ok_0;
    let s2 = fold_steps(s1, deps, dep_step(package))->Ok_0;
    let s3 = fold_steps(s2, bundled, bundle_step(task.2))->Ok_0;
    let s4 = fold_steps(s3, compats, compat_step())->Ok_0;
    let s5 = fold_steps(s4, extensions, extend_step(package))->Ok_0;
    let s6 = fold_steps(s5, recs, recommend_step())->Ok_0;
    lemma_fold_extends_tasks(st, conflicts, conflict_step(package));
    lemma_fold_extends_tasks(s1, deps, dep_step(package));
    lemma_fold_extends_tasks(s2, bundled, bundle_step(task.2));
    lemma_fold_extends_tasks(s3, compats, compat_step());
    lemma_fold_extends_tasks(s4, extensions, extend_step(package));
    lemma_fold_extends_tasks(s5, recs, recommend_step());
    assert(spec_apply_relations(st, task, rel) == Ok::<RState, (SResolutionError, RState)>(s6));
    assert forall|i: int| 0 <= i < st.tasks.len() implies #[trigger] s6.tasks[i] == st.tasks[i] by {
        assert(s6.tasks[i] == s5.tasks[i]);
        assert(s5.tasks[i] == s4.tasks[i]);
        assert(s4.tasks[i] == s3.tasks[i]);
        assert(s3.tasks[i] == s2.tasks[i]);
        assert(s2.tasks[i] == s1.tasks[i]);
    }
    lemma_fold_bundled_queued(s2, bundled, task.2);
    assert forall|k: int| 0 <= k < rel.bundled.len() implies s6.tasks.contains((#[trigger] rel.bundled[k], false, task.2)) by {
        lemma_sorted_contains(rel.bundled, String::key_order(), k);
        let j = choose|j: int| 0 <= j < bundled.len() && bundled[j] == rel.bundled[k];
        assert(s3.tasks.contains((bundled[j], false, task.2)));
        let m = choose|m: int| 0 <= m < s3.tasks.len() && s3.tasks[m] == (bundled[j], false, task.2);
        assert(s6.tasks[m] == s5.tasks[m]);
        assert(s5.tasks[m] == s4.tasks[m]);
        assert(s4.tasks[m] == s3.tasks[m]);
    }
}

proof fn lemma_push_required(cs: Seq<SConstraint>, c: SConstraint, id: Seq<char>)
    requires
        spec_is_required(cs.push(c), id),
        !requires_package(c, id),
    ensures
        spec_is_required(cs, id),
{
    let k = choose|k: int| 0 <= k < cs.push(c).len() && #[trigger] requires_package(cs.push(c)[k], id);
    assert(k < cs.len());
    assert(cs.push(c)[k] == cs[k]);
}

/// Taking conflicts requires no new package.
proof fn lemma_fold_conflicts_require_nothing(st: RState, items: Seq<Seq<char>>, package: Seq<char>, id: Seq<char>)
    requires
        fold_steps(st, items, conflict_step(package)) is Ok,
        spec_is_required(fold_steps(st, items, conflict_step(package))->Ok_0.cs, id),
    ensures
        spec_is_required(st.cs, id),
    decreases items.len(),
{
    if items.len() > 0 {
        let s2 = fold_steps(st, items.drop_last(), conflict_step(package))->Ok_0;
        assert(conflict_step(package)(s2, items.last()) is Ok);
        lemma_push_required(s2.cs, SConstraint::Refuse(items.last(), package), id);
        lemma_fold_conflicts_require_nothing(st, items.drop_last(), package, id);
    }
}

/// While dependencies are taken, a package that becomes required is queued for
/// evaluation as a dependency, and the queued tasks are kept.
proof fn lemma_fold_deps_queued(st: RState, items: Seq<(Seq<char>, bool)>, package: Seq<char>)
    requires
        fold_steps(st, items, dep_step(package)) is Ok,
    ensures
        extends_tasks(st, fold_steps(st, items, dep_step(package))->Ok_0),
        forall|id: Seq<char>|
            #[trigger] spec_is_required(fold_steps(st, items, dep_step(package))->Ok_0.cs, id) ==> spec_is_required(
                st.cs,
                id,
            ) || fold_steps(st, items, dep_step(package))->Ok_0.tasks.contains((id, false, false)),
    decreases items.len(),
{
    lemma_steps_extend_tasks(package, false);
    lemma_fold_extends_tasks(st, items, dep_step(package));
    if items.len() > 0 {
        let rest = items.drop_last();
        lemma_fold_deps_queued(st, rest, package);
        let s2 = fold_steps(st, rest, dep_step(package))->Ok_0;
        let d = items.last();
        assert(dep_step(package)(s2, d) is Ok);
        let s3 = dep_step(package)(s2, d)->Ok_0;
        assert forall|id: Seq<char>| #[trigger] spec_is_required(s3.cs, id) implies spec_is_required(st.cs, id)
            || s3.tasks.contains((id, false, false)) by {
            if s3 != s2 {
                assert(s3.cs == s2.cs.push(SConstraint::Require(d.0)));
                assert(s3.tasks == s2.tasks.push((d.0, false, false)));
                if id == d.0 {
                    assert(s3.tasks[s2.tasks.len() as int] == (id, false, false));
                } else {
                    lemma_push_required(s2.cs, SConstraint::Require(d.0), id);
                    if !spec_is_required(st.cs, id) {
                        let j = choose|j: int| 0 <= j < s2.tasks.len() && s2.tasks[j] == (id, false, false);
                        assert(s3.tasks[j] == s2.tasks[j]);
                    }
                }
            }
        }
    }
}

/// Handling the relations of an evaluated package queues for evaluation, as a
/// dependency, every package it depends on that was not required before, where the
/// handling succeeds.
pub proof fn law_relations_queue_new_dependencies(st: RState, task: STask, rel: SRelations)
    requires
        spec_apply_relations(st, task, rel) is Ok,
    ensures
        forall|k: int|
            0 <= k < rel.deps.flatten().len() && !spec_is_required(st.cs, rel.deps.flatten()[k].0)
                ==> spec_apply_relations(st, task, rel)->Ok_0.tasks.contains(
                (#[trigger] rel.deps.flatten()[k].0, false, false),
            ),
{
    let package = task.0;
    lemma_steps_extend_tasks(package, task.2);
    String::lemma_key_order();
    <(String, bool)>::lemma_key_order();
    <(String, String)>::lemma_key_order();
    let conflicts = rel.conflicts.sort_by(String::key_order());
    let deps = rel.deps.flatten().sort_by(<(String, bool)>::key_order());
    let bundled = rel.bundled.sort_by(String::key_order());
    let compats = rel.compats.sort_by(<(String, String)>::key_order());
    let extensions = rel.extensions.sort_by(String::key_order());
    let recs = rel.recommendations.sort_by(<(String, bool)>::key_order());
    let s1 = fold_steps(st, conflicts, conflict_step(package))->Ok_0;
    let s2 = fold_steps(s1, deps, dep_step(package))->Ok_0;
    let s3 = fold_steps(s2, bundled, bundle_step(task.2))->Ok_0;
    let s4 = fold_steps(s3, compats, compat_step())->Ok_0;
    let s5 = fold_steps(s4, extensions, extend_step(package))->Ok_0;
    let s6 = fold_steps(s5, recs, recommend_step())->Ok_0;
    lemma_fold_extends_tasks(s2, bundled, bundle_step(task.2));
    lemma_fold_extends_tasks(s3, compats, compat_step());
    lemma_fold_extends_tasks(s4, extensions, extend_step(package));
    lemma_fold_extends_tasks(s5, recs, recommend_step());
    assert(spec_apply_relations(st, task, rel) == Ok::<RState, (SResolutionError, RState)>(s6));
    lemma_fold_deps_required(s1, deps, package);
    lemma_fold_deps_queued(s1, deps, package);
    let fl = rel.deps.flatten();
    assert forall|k: int|
        0 <= k < fl.len() && !spec_is_required(st.cs, fl[k].0) implies s6.tasks.contains((#[trigger] fl[k].0, false, false)) by {
        lemma_sorted_contains(fl, <(String, bool)>::key_order(), k);
        let j = choose|j: int| 0 <= j < deps.len() && deps[j] == fl[k];
        assert(spec_is_required(s2.cs, deps[j].0));
        if spec_is_required(s1.cs, fl[k].0) {
            lemma_fold_conflicts_require_nothing(st, conflicts, package, fl[k].0);
        }
        assert(s2.tasks.contains((fl[k].0, false, false)));
        let m = choose|m: int| 0 <= m < s2.tasks.len() && s2.tasks[m] == (fl[k].0, false, false);
        assert(s3.tasks[m] == s2.tasks[m]);
        assert(s4.tasks[m] == s3.tasks[m]);
        assert(s5.tasks[m] == s4.tasks[m]);
        assert(s6.tasks[m] == s5.tasks[m]);
    }
}

/// Checking compats keeps every required package required.
pub proof fn law_compats_keep_required(cs: Seq<SConstraint>)
    ensures
        forall|id: Seq<char>|
            spec_is_required(cs, id) ==> #[trigger] spec_is_required(
                spec_compats_checked(cs),
                id,
            ),
{
    let out = spec_compats_checked(cs);
    assert forall|id: Seq<char>| spec_is_required(cs, id) implies #[trigger] spec_is_required(out, id) by {
        let k = choose|k: int| 0 <= k < cs.len() && #[trigger] requires_package(cs[k], id);
        assert(out[k] == cs[k]);
    }
}

/// The packages that resolution installs are exactly the required ones.
pub proof fn law_collected_packages_are_required(cs: Seq<SConstraint>, id: Seq<char>)
    ensures
        spec_collect_packages(cs).contains(id) <==> spec_is_required(cs, id),
    decreases cs.len(),
{
    if cs.len() > 0 {
        let rest = cs.drop_last();
        law_collected_packages_are_required(rest, id);
        if spec_is_required(rest, id) {
            let k = choose|k: int| 0 <= k < rest.len() && #[trigger] requires_package(rest[k], id);
            assert(cs[k] == rest[k]);
        }
        if spec_is_required(cs, id) && !requires_package(cs.last(), id) {
            let k = choose|k: int| 0 <= k < cs.len() && #[trigger] requires_package(cs[k], id);
            assert(k < cs.len() - 1);
            assert(rest[k] == cs[k]);
        }
        if requires_package(cs.last(), id) {
            assert(requires_package(cs[cs.len() - 1], id));
        }
        let c = spec_collect_packages(rest);
        match cs.last() {
            SConstraint::Require(d) | SConstraint::UserRequire(d) | SConstraint::Bundle(d, _) => {
                assert(c.push(d).contains(id) <==> (c.contains(id) || d == id)) by {
                    if c.push(d).contains(id) {
                        let j = choose|j: int| 0 <= j < c.push(d).len() && c.push(d)[j] == id;
                        if j < c.len() {
                            assert(c[j] == id);
                        }
                    }
                    if c.contains(id) {
                        let j = choose|j: int| 0 <= j < c.len() && c[j] == id;
                        assert(c.push(d)[j] == id);
                    }
                    if d == id {
                        assert(c.push(d)[c.len() as int] == id);
                    }
                }
            },
            _ => {},
        }
    }
}

/// Where finishing succeeds, every extended package is installed, and each reported
/// recommendation is one that is not met: a package recommended but not installed, or
/// recommended against but installed.
pub proof fn law_finish_reports_unmet_recommendations(cs: Seq<SConstraint>, n: nat)
    requires
        n <= cs.len(),
        spec_unfulfilled(cs, n) is Ok,
    ensures
        forall|k: int|
            0 <= k < n ==> (#[trigger] cs[k] matches SConstraint::Extend(p, _) ==> spec_is_required(cs, p)),
        forall|k: int|
            0 <= k < spec_unfulfilled(cs, n)->Ok_0.len() ==> {
                let r = #[trigger] spec_unfulfilled(cs, n)->Ok_0[k];
                r.1 == spec_is_required(cs, r.0) && exists|j: int|
                    0 <= j < n && cs[j] == SConstraint::Recommend(r.0, r.1)
            },
    decreases n,
{
    if n > 0 {
        law_finish_reports_unmet_recommendations(cs, (n - 1) as nat);
        let recs = spec_unfulfilled(cs, (n - 1) as nat)->Ok_0;
        let out = spec_unfulfilled(cs, n)->Ok_0;
        assert forall|k: int| 0 <= k < out.len() implies {
            let r = #[trigger] out[k];
            r.1 == spec_is_required(cs, r.0) && exists|j: int|
                0 <= j < n && cs[j] == SConstraint::Recommend(r.0, r.1)
        } by {
            if k < recs.len() {
                assert(out[k] == recs[k]);
                let r = recs[k];
                assert(r.1 == spec_is_required(cs, r.0));
                let j = choose|j: int| 0 <= j < n - 1 && cs[j] == SConstraint::Recommend(r.0, r.1);
                assert(0 <= j < n && cs[j] == SConstraint::Recommend(r.0, r.1));
            } else {
                assert(cs[n - 1] == SConstraint::Recommend(out[k].0, out[k].1));
            }
        }
    }
}

} // verus!
