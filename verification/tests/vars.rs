use mcvm::vars::{
    is_reserved_constant_var, HashMapVariableStore, ReservedConstantVariables, SetVarError, Value,
    ValueError, VariableStore,
};

fn store() -> HashMapVariableStore {
    let mut vars = HashMapVariableStore::new();
    vars.set_var(String::from("bar"), String::from("foo"));
    vars.set_var(String::from("hello"), String::from("who"));
    vars
}

#[test]
fn test_value_substitution() {
    let vars = store();
    let string = "One ${bar} skip a ${hello}";
    let string = Value::substitute_tokens(string, &vars);
    assert_eq!(string, "One foo skip a who");
}

#[test]
fn substitution_escapes_and_undefined() {
    let vars = store();
    assert_eq!(Value::substitute_tokens("\\${bar}", &vars), "${bar}");
    assert_eq!(Value::substitute_tokens("a${nope}b", &vars), "ab");
    assert_eq!(Value::substitute_tokens("$x", &vars), "x");
    assert_eq!(Value::substitute_tokens("plain text", &vars), "plain text");
    assert_eq!(Value::substitute_tokens("${bar", &vars), "");
}

#[test]
fn value_get() {
    let vars = store();
    assert_eq!(Value::Empty.get(&vars), Err(ValueError::Empty));
    assert_eq!(
        Value::Var(String::from("bar")).get(&vars),
        Ok(String::from("foo"))
    );
    assert_eq!(
        Value::Var(String::from("x")).get(&vars),
        Err(ValueError::Undefined(String::from("x")))
    );
    assert_eq!(
        Value::Constant(String::from("v${hello}")).get(&vars),
        Ok(String::from("vwho"))
    );
    assert_eq!(Value::Empty.get_as_option(&vars), Ok(None));
    assert_eq!(
        Value::Var(String::from("bar")).get_as_option(&vars),
        Ok(Some(String::from("foo")))
    );
    assert!(!Value::Empty.is_some());
    assert!(Value::Constant(String::new()).is_some());
}

#[test]
fn reserved_constants() {
    assert!(is_reserved_constant_var("MINECRAFT_VERSION"));
    assert!(!is_reserved_constant_var("minecraft_version"));
    let mut vars = HashMapVariableStore::new();
    assert_eq!(
        vars.try_set_var(String::from("MINECRAFT_VERSION"), String::from("1")),
        Err(SetVarError::ReservedConstant)
    );
    assert!(!vars.var_exists("MINECRAFT_VERSION"));
    vars.set_reserved_constants(ReservedConstantVariables { mc_version: "1.20.1" });
    assert_eq!(vars.get_var("MINECRAFT_VERSION"), Some("1.20.1"));
    assert_eq!(vars.try_set_var(String::from("a"), String::from("b")), Ok(()));
    assert_eq!(vars.get_var("a"), Some("b"));
}
