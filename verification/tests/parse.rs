use mcvm::conditions::ConditionKind;
use mcvm::instruction::InstrKind;
use mcvm::lex::{lex, try_lex, LexError, TextPos, Token};
use mcvm::parse::{lex_and_parse, parse, try_lex_and_parse, try_parse, Parsed, ScriptError, DEFAULT_ROUTINE};
use mcvm::pkg::{parse_and_validate, try_parse_and_validate, EvalError, PackageError};
use mcvm::parse_error::ParseError;
use mcvm::routine::{INSTALL_ROUTINE, METADATA_ROUTINE};
use mcvm::shared::ModloaderMatch;
use mcvm::vars::Value;

fn block_contents<'a>(parsed: &'a Parsed, routine: &str) -> &'a Vec<mcvm::instruction::Instruction> {
    let id = parsed.get_routine(routine).unwrap();
    &parsed.get_block(id).unwrap().contents
}

#[test]
fn test_routine_parse() {
    let text = "@install {} @meta {} @foo {}";
    let parsed = lex_and_parse(text).unwrap();
    assert!(parsed.get_block(parsed.get_routine(INSTALL_ROUTINE).unwrap()).is_some());
    assert!(parsed.get_block(parsed.get_routine(METADATA_ROUTINE).unwrap()).is_some());
    assert!(parsed.get_block(parsed.get_routine("foo").unwrap()).is_some());
}

#[test]
fn test_explicit_require_parse() {
    let text = r#"@install { require <"optifine"> <"sodium"> "cit-support"; }"#;
    let parsed = lex_and_parse(text).unwrap();
    let contents = block_contents(&parsed, INSTALL_ROUTINE);
    let mut seen = false;
    for instr in contents {
        if let InstrKind::Require(groups) = &instr.kind {
            seen = true;
            let package = groups.get(0).unwrap().get(0).unwrap();
            assert!(matches!(&package.value, Value::Constant(name) if name == "optifine"));
            assert!(package.explicit);

            let package = groups.get(1).unwrap().get(0).unwrap();
            assert!(matches!(&package.value, Value::Constant(name) if name == "sodium"));
            assert!(package.explicit);

            let package = groups.get(2).unwrap().get(0).unwrap();
            assert!(matches!(&package.value, Value::Constant(name) if name == "cit-support"));
            assert!(!package.explicit);
        }
    }
    assert!(seen);
}

#[test]
fn test_and_condition_parse() {
    let text = r#"@install {
			if not modloader fabric and modloader forge {}
		}"#;
    let parsed = lex_and_parse(text).unwrap();
    let contents = block_contents(&parsed, INSTALL_ROUTINE);
    let mut seen = false;
    for instr in contents {
        if let InstrKind::If { condition, .. } = &instr.kind {
            seen = true;
            assert_eq!(
                condition.kind,
                ConditionKind::And(
                    Box::new(ConditionKind::Not(Some(Box::new(ConditionKind::Modloader(Some(
                        ModloaderMatch::Fabric
                    )))))),
                    Some(Box::new(ConditionKind::Modloader(Some(ModloaderMatch::Forge)))),
                )
            );
        }
    }
    assert!(seen);
}

#[test]
fn default_routine_exists_before_any_token() {
    let parsed = parse(&[]).unwrap();
    assert_eq!(parsed.get_routine(DEFAULT_ROUTINE), Some(1));
    assert_eq!(parsed.block_count(), 1);
    assert!(parsed.get_block(1).unwrap().contents.is_empty());
}

#[test]
fn instructions_outside_routines_go_to_default_block() {
    let parsed = lex_and_parse(r#"name "Foo"; finish;"#).unwrap();
    let contents = block_contents(&parsed, DEFAULT_ROUTINE);
    assert_eq!(contents.len(), 2);
    assert!(matches!(&contents[1].kind, InstrKind::Finish()));
}

#[test]
fn if_block_is_nested_in_routine_block() {
    let parsed = lex_and_parse("@install { if side client { finish; } fail; }").unwrap();
    let install = parsed.get_routine(INSTALL_ROUTINE).unwrap();
    let contents = &parsed.get_block(install).unwrap().contents;
    assert_eq!(contents.len(), 2);
    match &contents[0].kind {
        InstrKind::If { if_block, .. } => {
            let inner = parsed.get_block(*if_block).unwrap();
            assert_eq!(inner.parent, Some(install));
            assert_eq!(inner.contents.len(), 1);
        }
        _ => panic!("expected an if instruction"),
    }
    assert!(matches!(&contents[1].kind, InstrKind::Fail(None)));
}

#[test]
fn addon_instruction_fields() {
    let parsed = lex_and_parse(
        r#"@install { addon "sodium" "sodium.jar" (kind: mod, url: "https://example.com/s.jar", version: $v); }"#,
    )
    .unwrap();
    let contents = block_contents(&parsed, INSTALL_ROUTINE);
    match &contents[0].kind {
        InstrKind::Addon { id, file_name, kind, url, path, version, .. } => {
            assert_eq!(id, &Value::Constant("sodium".to_string()));
            assert_eq!(file_name, &Value::Constant("sodium.jar".to_string()));
            assert_eq!(*kind, Some(mcvm::shared::AddonKind::Mod));
            assert_eq!(url, &Value::Constant("https://example.com/s.jar".to_string()));
            assert_eq!(path, &Value::Empty);
            assert_eq!(version, &Value::Var("v".to_string()));
        }
        _ => panic!("expected an addon instruction"),
    }
}

#[test]
fn addon_without_filename_is_refused() {
    let r = lex_and_parse(r#"addon "sodium" (kind: mod);"#);
    assert!(matches!(r, Err(ScriptError::Parse(ParseError::MissingAddonFilename))));
}

#[test]
fn addon_unknown_key_is_refused() {
    let r = lex_and_parse(r#"addon "a" "a.jar" (colour: "red");"#);
    assert!(matches!(r, Err(ScriptError::Parse(ParseError::UnknownAddonKey(k, _))) if k == "colour"));
}

#[test]
fn routine_inside_nested_block_is_refused() {
    let r = lex_and_parse("@install { if side client { @foo {} } }");
    assert!(matches!(r, Err(ScriptError::Parse(ParseError::UnexpectedRoutine(_)))));
}

#[test]
fn unknown_instruction_is_refused() {
    let r = lex_and_parse("@install { frobnicate; }");
    assert!(matches!(r, Err(ScriptError::Parse(ParseError::UnknownInstruction(n, _))) if n == "frobnicate"));
}

#[test]
fn unknown_condition_is_refused() {
    let r = lex_and_parse("if weather rain {}");
    assert!(matches!(r, Err(ScriptError::Parse(ParseError::UnknownCondition(n, _))) if n == "weather"));
}

#[test]
fn stray_left_curly_is_refused() {
    let r = parse(&[(Token::Curly(mcvm::lex::Side::Left), TextPos(1, 1))]);
    assert!(matches!(r, Err(ParseError::UnexpectedToken(Token::Curly(_), TextPos(1, 1)))));
}

#[test]
fn unfinished_condition_before_block_is_refused() {
    let r = lex_and_parse("if not {}");
    assert!(matches!(r, Err(ScriptError::Parse(ParseError::UnexpectedToken(_, _)))));
}

#[test]
fn require_groups_and_unclosed_explicit() {
    let parsed = lex_and_parse(r#"require ("a" "b") "c";"#).unwrap();
    let contents = block_contents(&parsed, DEFAULT_ROUTINE);
    match &contents[0].kind {
        InstrKind::Require(groups) => {
            assert_eq!(groups.len(), 2);
            assert_eq!(groups[0].len(), 2);
            assert_eq!(groups[1].len(), 1);
        }
        _ => panic!("expected a require instruction"),
    }
    let r = lex_and_parse(r#"require <>;"#);
    assert!(matches!(r, Err(ScriptError::Parse(ParseError::UnexpectedToken(_, _)))));
}

#[test]
fn lexing_error_is_reported_as_such() {
    let r = lex_and_parse("name \"x\" ~;");
    assert!(matches!(r, Err(ScriptError::Lex(_))));
    assert!(lex("~").is_err());
}

#[test]
fn test_try_lex_number_out_of_range() {
    assert!(try_lex("set x 99999999999999999999").is_none());
    assert!(try_lex("set x -").is_none());
    match try_lex("set x 12") {
        Some(Ok(tokens)) => assert_eq!(tokens.len(), 5),
        other => panic!("{:?}", other),
    }
    assert!(matches!(try_lex("x -;"), Some(Err(LexError::InvalidNumber(_)))));
}

#[test]
fn test_try_parse_tokens() {
    let tokens = lex("@install { name \"x\"; }").unwrap();
    match try_parse(&tokens) {
        Some(Ok(parsed)) => assert!(parsed.get_routine(INSTALL_ROUTINE).is_some()),
        other => panic!("{:?}", other.is_some()),
    }
    let tokens = lex("@install { foo; }").unwrap();
    assert!(matches!(try_parse(&tokens), Some(Err(ParseError::UnknownInstruction(..)))));
}

#[test]
fn test_try_lex_and_parse() {
    assert!(try_lex_and_parse("@install { set x 99999999999999999999; }").is_none());
    assert!(matches!(try_lex_and_parse("@install {"), Some(Ok(_))));
    assert!(matches!(try_lex_and_parse("@install { x -; }"), Some(Err(ScriptError::Lex(_)))));
    assert!(matches!(try_lex_and_parse("@install { foo; }"), Some(Err(ScriptError::Parse(_)))));
}

#[test]
fn test_try_parse_and_validate() {
    assert!(matches!(try_parse_and_validate("@meta { name \"Foo\"; } @install {}"), Some(Ok(()))));
    assert!(matches!(
        try_parse_and_validate("@meta { set x 1; }"),
        Some(Err(PackageError::Metadata(EvalError::InstructionNotAllowed)))
    ));
    assert!(matches!(
        try_parse_and_validate("@properties { features \"a\"; default_features \"b\"; }"),
        Some(Err(PackageError::Properties(EvalError::UnknownDefaultFeature(_))))
    ));
    assert!(matches!(try_parse_and_validate("@meta { foo; }"), Some(Err(PackageError::Parse(_)))));
    assert!(try_parse_and_validate("@meta { name 99999999999999999999; }").is_none());
    assert!(matches!(parse_and_validate("@meta {}"), Ok(())));
}

#[test]
fn test_default_routine_kept() {
    for text in ["", "@install {}", "@foo { if side client { notice \"x\"; } } @bar {}"] {
        let parsed = lex_and_parse(text).unwrap();
        let id = parsed.get_routine(DEFAULT_ROUTINE).unwrap();
        assert!(parsed.get_block(id).is_some());
    }
}
