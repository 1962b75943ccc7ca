use std::collections::HashMap;

use mcvm::order::{sorted, text_less_or_equal};
use mcvm::resolve::{PackageRelations, ResolutionError, ResolutionResult, Resolver};
use mcvm::script_eval::{RecommendedPackage, RequiredPackage};

fn empty() -> PackageRelations {
    PackageRelations {
        deps: Vec::new(),
        conflicts: Vec::new(),
        recommendations: Vec::new(),
        bundled: Vec::new(),
        compats: Vec::new(),
        extensions: Vec::new(),
    }
}

fn dep(id: &str, explicit: bool) -> RequiredPackage {
    RequiredPackage { value: id.to_string(), explicit }
}

fn run(user: &[&str], db: &HashMap<&str, PackageRelations>) -> Result<ResolutionResult, ResolutionError> {
    let mut resolver = Resolver::new(user.iter().map(|s| s.to_string()).collect());
    while let Some(task) = resolver.next_task() {
        resolver.check_constraints(&task.package)?;
        let relations = db.get(task.package.as_str()).cloned().unwrap_or_else(empty);
        resolver.apply_relations(&task, relations)?;
        resolver.check_compats();
    }
    resolver.finish()
}

#[test]
fn dependencies_are_installed() {
    let mut db = HashMap::new();
    db.insert("a", PackageRelations { deps: vec![vec![dep("b", false)], vec![dep("c", false)]], ..empty() });
    db.insert("c", PackageRelations { deps: vec![vec![dep("b", false)]], ..empty() });
    let result = run(&["a"], &db).unwrap();
    assert_eq!(result.packages, vec!["a".to_string(), "b".to_string(), "c".to_string()]);
    assert!(result.unfulfilled_recommendations.is_empty());
}

#[test]
fn user_packages_are_taken_in_order() {
    let db = HashMap::new();
    let result = run(&["zeta", "alpha", "mid"], &db).unwrap();
    assert_eq!(result.packages, vec!["alpha".to_string(), "mid".to_string(), "zeta".to_string()]);
}

#[test]
fn refused_dependency_fails() {
    let mut db = HashMap::new();
    db.insert("a", PackageRelations { conflicts: vec!["x".to_string()], ..empty() });
    db.insert("b", PackageRelations { deps: vec![vec![dep("x", false)]], ..empty() });
    let err = run(&["a", "b"], &db).unwrap_err();
    assert_eq!(err, ResolutionError::Refused { package: "x".to_string(), refusers: vec!["a".to_string()] });
}

#[test]
fn conflict_with_required_package_fails() {
    let mut db = HashMap::new();
    db.insert("b", PackageRelations { conflicts: vec!["a".to_string()], ..empty() });
    let err = run(&["a", "b"], &db).unwrap_err();
    assert_eq!(err, ResolutionError::Incompatible { package: "a".to_string(), refuser: "b".to_string() });
}

#[test]
fn explicit_dependency_needs_the_user() {
    let mut db = HashMap::new();
    db.insert("a", PackageRelations { deps: vec![vec![dep("opt", true)]], ..empty() });
    let err = run(&["a"], &db).unwrap_err();
    assert_eq!(err, ResolutionError::ExplicitRequire { package: "opt".to_string(), dependent: "a".to_string() });
    let result = run(&["a", "opt"], &db).unwrap();
    assert_eq!(result.packages, vec!["a".to_string(), "opt".to_string()]);
}

#[test]
fn bundles_replace_requirements() {
    let mut db = HashMap::new();
    db.insert("pack", PackageRelations { bundled: vec!["m2".to_string(), "m1".to_string()], ..empty() });
    db.insert("m2", PackageRelations { deps: vec![vec![dep("m1", true)]], ..empty() });
    let result = run(&["m1", "pack"], &db).unwrap();
    assert_eq!(result.packages, vec!["pack".to_string(), "m1".to_string(), "m2".to_string()]);
}

#[test]
fn compats_add_packages() {
    let mut db = HashMap::new();
    db.insert("a", PackageRelations { compats: vec![("b".to_string(), "a-b".to_string())], ..empty() });
    let result = run(&["a"], &db).unwrap();
    assert_eq!(result.packages, vec!["a".to_string()]);
    let result = run(&["a", "b"], &db).unwrap();
    assert_eq!(result.packages, vec!["a".to_string(), "b".to_string(), "a-b".to_string()]);
}

#[test]
fn extensions_need_their_package() {
    let mut db = HashMap::new();
    db.insert("addon", PackageRelations { extensions: vec!["base".to_string()], ..empty() });
    let err = run(&["addon"], &db).unwrap_err();
    assert_eq!(err, ResolutionError::ExtensionMissing { package: "base".to_string(), extender: "addon".to_string() });
    assert!(run(&["addon", "base"], &db).is_ok());
}

#[test]
fn unmet_recommendations_are_reported() {
    let mut db = HashMap::new();
    db.insert(
        "a",
        PackageRelations {
            recommendations: vec![
                RecommendedPackage { value: "nice".to_string(), invert: false },
                RecommendedPackage { value: "bad".to_string(), invert: true },
                RecommendedPackage { value: "b".to_string(), invert: false },
            ],
            ..empty()
        },
    );
    let result = run(&["a", "b", "bad"], &db).unwrap();
    assert_eq!(
        result.unfulfilled_recommendations,
        vec![
            RecommendedPackage { value: "bad".to_string(), invert: true },
            RecommendedPackage { value: "nice".to_string(), invert: false },
        ]
    );
}

#[test]
fn queries_on_constraints() {
    let mut resolver = Resolver::new(vec!["a".to_string()]);
    assert!(resolver.is_required("a"));
    assert!(resolver.is_user_required("a"));
    assert!(!resolver.is_refused("a"));
    let task = resolver.next_task().unwrap();
    assert_eq!(task.package, "a");
    assert!(task.configured && task.user_bundled);
    resolver
        .apply_relations(
            &task,
            PackageRelations {
                conflicts: vec!["x".to_string()],
                compats: vec![("p".to_string(), "q".to_string())],
                ..empty()
            },
        )
        .unwrap();
    assert!(resolver.is_refused("x"));
    assert_eq!(resolver.get_refusers("x"), vec!["a".to_string()]);
    assert!(resolver.compat_exists("p", "q"));
    assert!(!resolver.compat_exists("q", "p"));
    assert!(resolver.check_constraints("a").is_ok());
    resolver.remove_require_constraint("a");
    assert!(!resolver.is_required("a"));
    assert!(resolver.collect_packages().is_empty());
}

#[test]
fn ids_sort_by_code_points() {
    let ids = vec!["b".to_string(), "B".to_string(), "ab".to_string(), "a".to_string(), "é".to_string()];
    assert_eq!(
        sorted(ids),
        vec!["B".to_string(), "a".to_string(), "ab".to_string(), "b".to_string(), "é".to_string()]
    );
    assert!(text_less_or_equal("abc", "abd"));
    assert!(text_less_or_equal("ab", "ab"));
    assert!(!text_less_or_equal("b", "ab"));
    let pairs = vec![("x".to_string(), true), ("x".to_string(), false), ("a".to_string(), true)];
    assert_eq!(
        sorted(pairs),
        vec![("a".to_string(), true), ("x".to_string(), false), ("x".to_string(), true)]
    );
}
