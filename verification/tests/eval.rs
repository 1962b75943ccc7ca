use mcvm::evaluator::CollectingEvaluator;
use mcvm::parse::lex_and_parse;
use mcvm::parse_error::FailReason;
use mcvm::call_graph::has_call_ranking;
use mcvm::script_eval::{
    all_addons_have_kinds, eval_script_package, eval_script_package_checked, get_value_vec, EvalOutput, EvalReason, EvalResult, ScriptEvalConfig,
    ScriptEvalError,
};
use mcvm::shared::GameSide;
use mcvm::vars::{HashMapVariableStore, Value, ValueError, VariableStore};

fn run(script: &str, reason: EvalReason) -> (Result<(), ScriptEvalError>, Vec<EvalOutput>) {
    let parsed = lex_and_parse(script).unwrap();
    let mut e = CollectingEvaluator::new(GameSide::Client, vec!["fast".to_string()]);
    let mut vars = HashMapVariableStore::new();
    let r = eval_script_package(&parsed, &mut e, &mut vars, &ScriptEvalConfig { reason });
    (r, e.outputs)
}

fn notices(outputs: &[EvalOutput]) -> Vec<String> {
    outputs
        .iter()
        .filter_map(|o| match o {
            EvalOutput::Notice(n) => Some(n.clone()),
            _ => None,
        })
        .collect()
}

#[test]
fn if_and_finish_control_flow() {
    let (r, out) = run(
        r#"@install { if side client { notice "client"; } if side server { notice "server"; } notice "both"; finish; notice "never"; }"#,
        EvalReason::Install,
    );
    assert!(r.is_ok());
    assert_eq!(notices(&out), vec!["client".to_string(), "both".to_string()]);
}

#[test]
fn finish_inside_if_stops_the_routine() {
    let (r, out) = run(r#"@install { if side client { finish; } notice "after"; }"#, EvalReason::Install);
    assert!(r.is_ok());
    assert!(notices(&out).is_empty());
}

#[test]
fn variables_and_calls() {
    let (r, out) = run(
        r#"@install { set name "world"; call greet; } @greet { notice "hello ${name}"; }"#,
        EvalReason::Install,
    );
    assert!(r.is_ok());
    assert_eq!(notices(&out), vec!["hello world".to_string()]);
}

#[test]
fn missing_routine_and_failures() {
    let (r, _) = run(r#"@install { call nowhere; }"#, EvalReason::Install);
    assert!(matches!(r, Err(ScriptEvalError::RoutineMissing(n)) if n == "nowhere"));
    let (r, _) = run(r#"@meta { name "x"; }"#, EvalReason::Install);
    assert!(matches!(r, Err(ScriptEvalError::RoutineMissing(n)) if n == "install"));
    let (r, _) = run(r#"@install { fail unsupported_version; }"#, EvalReason::Install);
    assert_eq!(r, Err(ScriptEvalError::Failed(FailReason::UnsupportedVersion)));
    let (r, _) = run(r#"@install { fail; }"#, EvalReason::Install);
    assert_eq!(r, Err(ScriptEvalError::Failed(FailReason::Unspecified)));
    let (r, _) = run(r#"@install { name "x"; }"#, EvalReason::Install);
    assert_eq!(r, Err(ScriptEvalError::NotAllowed));
    let (r, _) = run(r#"@install { notice $undefined; }"#, EvalReason::Install);
    assert_eq!(r, Err(ScriptEvalError::Value(ValueError::Undefined("undefined".to_string()))));
    let (r, _) = run(r#"@install { if os windows { notice "x"; } }"#, EvalReason::Install);
    assert_eq!(
        r,
        Err(ScriptEvalError::Evaluator("The condition cannot be answered by this evaluator".to_string()))
    );
    let (r, _) = run(r#"@install { if feature $missing { notice "x"; } }"#, EvalReason::Install);
    assert_eq!(
        r,
        Err(ScriptEvalError::Evaluator("The feature of the condition could not be read".to_string()))
    );
}

#[test]
fn relations_only_when_resolving() {
    let script = r#"@install { require "a" ("b" "c"); refuse "d"; bundle "e"; compat "f" "g"; extend "h"; recommend "i"; }"#;
    let (r, out) = run(script, EvalReason::Resolve);
    assert!(r.is_ok());
    assert_eq!(out.len(), 7);
    match &out[0] {
        EvalOutput::Dependency(group) => {
            assert_eq!(group.len(), 1);
            assert_eq!(group[0].value, "a");
        }
        _ => panic!("expected a dependency"),
    }
    match &out[1] {
        EvalOutput::Dependency(group) => assert_eq!(group.len(), 2),
        _ => panic!("expected a dependency"),
    }
    assert!(matches!(&out[2], EvalOutput::Conflict(d) if d == "d"));
    assert!(matches!(&out[4], EvalOutput::Compat(f, g) if f == "f" && g == "g"));
    assert!(matches!(&out[6], EvalOutput::Recommendation(r) if r.value == "i" && !r.invert));

    let (r, out) = run(script, EvalReason::Install);
    assert!(r.is_ok());
    assert!(out.is_empty());
}

#[test]
fn addon_instruction_when_installing() {
    let (r, out) = run(
        r#"@install { addon "sodium" "sodium.jar" (kind: mod, url: "https://x/s.jar"); }"#,
        EvalReason::Install,
    );
    assert!(r.is_ok());
    match &out[0] {
        EvalOutput::Addon(a) => {
            assert_eq!(a.id, "sodium");
            assert_eq!(a.file_name, Some("sodium.jar".to_string()));
            assert_eq!(a.url, Some("https://x/s.jar".to_string()));
            assert_eq!(a.path, None);
        }
        _ => panic!("expected an addon"),
    }
}

#[test]
fn value_vectors() {
    let mut vars = HashMapVariableStore::new();
    vars.set_var("x".to_string(), "1".to_string());
    let vals = vec![Value::Constant("a${x}".to_string()), Value::Var("x".to_string())];
    assert_eq!(get_value_vec(&vals, &vars).unwrap(), vec!["a1".to_string(), "1".to_string()]);
    let bad = vec![Value::Constant("a".to_string()), Value::Empty, Value::Var("y".to_string())];
    assert_eq!(get_value_vec(&bad, &vars), Err(ValueError::Empty));
    assert!(!EvalResult::new().finish);
}

#[test]
fn conditions_from_installation_facts() {
    let (r, out) = run(
        r#"@install { set v "1"; if feature "fast" { notice "fast"; } if feature "slow" { notice "slow"; } if value $v "1" { notice "one"; } if defined "v" { notice "defined"; } if not side server { notice "not server"; } }"#,
        EvalReason::Install,
    );
    assert!(r.is_ok());
    assert_eq!(
        notices(&out),
        vec!["fast".to_string(), "one".to_string(), "defined".to_string(), "not server".to_string()]
    );
}

#[test]
fn terminating_recursion_is_evaluated() {
    let parsed = lex_and_parse(r#"@install { call a; } @a { if side client { call b; } } @b { call a; }"#).unwrap();
    assert!(!has_call_ranking(&parsed));
    let mut e = CollectingEvaluator::new(GameSide::Server, Vec::new());
    let mut vars = HashMapVariableStore::new();
    let config = ScriptEvalConfig { reason: EvalReason::Install };
    assert_eq!(eval_script_package_checked(&parsed, &mut e, &mut vars, &config), Some(Ok(())));
    assert!(e.outputs.is_empty());

    let parsed = lex_and_parse(
        r#"@install { call again; notice "end"; } @again { if not defined "done" { set done "1"; notice "once"; call again; } }"#,
    )
    .unwrap();
    assert!(!has_call_ranking(&parsed));
    let (r, out) = run(
        r#"@install { call again; notice "end"; } @again { if not defined "done" { set done "1"; notice "once"; call again; } }"#,
        EvalReason::Install,
    );
    assert!(r.is_ok());
    assert_eq!(notices(&out), vec!["once".to_string(), "end".to_string()]);
    let mut e = CollectingEvaluator::new(GameSide::Server, Vec::new());
    let mut vars = HashMapVariableStore::new();
    assert_eq!(eval_script_package_checked(&parsed, &mut e, &mut vars, &config), Some(Ok(())));
    assert_eq!(notices(&e.outputs), vec!["once".to_string(), "end".to_string()]);

    let parsed = lex_and_parse(r#"@install { call a; } @a { if side server { notice "hi"; } }"#).unwrap();
    assert!(has_call_ranking(&parsed));
    let mut e = CollectingEvaluator::new(GameSide::Server, Vec::new());
    let r = eval_script_package_checked(&parsed, &mut e, &mut vars, &config);
    assert_eq!(r, Some(Ok(())));
    assert_eq!(notices(&e.outputs), vec!["hi".to_string()]);
}

#[test]
fn endless_recursion_stops_at_the_checked_depth() {
    let parsed = lex_and_parse(r#"@install { call a; } @a { notice "x"; call a; }"#).unwrap();
    assert!(!has_call_ranking(&parsed));
    let mut e = CollectingEvaluator::new(GameSide::Server, Vec::new());
    let mut vars = HashMapVariableStore::new();
    let config = ScriptEvalConfig { reason: EvalReason::Install };
    assert!(eval_script_package_checked(&parsed, &mut e, &mut vars, &config).is_none());
    assert_eq!(e.outputs.len(), 256);
}

#[test]
fn addons_without_kind_are_only_run_when_resolving() {
    let parsed = lex_and_parse(r#"@install { addon "x" "x.jar" (url: "https://x/x.jar"); }"#).unwrap();
    assert!(!all_addons_have_kinds(&parsed));
    let mut e = CollectingEvaluator::new(GameSide::Client, Vec::new());
    let mut vars = HashMapVariableStore::new();
    let install = ScriptEvalConfig { reason: EvalReason::Install };
    assert!(eval_script_package_checked(&parsed, &mut e, &mut vars, &install).is_none());
    let resolve = ScriptEvalConfig { reason: EvalReason::Resolve };
    assert_eq!(eval_script_package_checked(&parsed, &mut e, &mut vars, &resolve), Some(Ok(())));
    assert!(e.outputs.is_empty());
}
