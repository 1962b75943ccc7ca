use mcvm::lex::{
    is_ident, is_num, is_whitespace, lex, lex_string_char, reduce_tokens, LexError,
    Side, StrLexResult, TextPos, Token,
};

fn assert_tokens(text: &str, toks: Vec<Token>) {
    match lex(text) {
        Ok(lexed) => {
            assert_eq!(lexed.len(), toks.len());
            for ((left, _), right) in lexed.iter().zip(toks) {
                assert_eq!(left, &right);
            }
        }
        Err(e) => {
            panic!("{:?}", e);
        }
    }
}

#[test]
fn test_chars() {
    assert!(is_ident('a', false));
    assert!(is_ident('a', true));
    assert!(is_ident('B', false));
    assert!(is_ident('B', true));
    assert!(is_ident('_', false));
    assert!(is_ident('_', true));

    assert!(is_ident('5', false));
    assert!(!is_ident('2', true));

    assert!(is_num('8', false));
    assert!(is_num('8', true));
    assert!(!is_num('t', false));
    assert!(!is_num('t', true));
    assert!(!is_num('.', false));
    assert!(!is_num('.', true));
    assert!(is_num('-', true));
    assert!(!is_num('-', false));

    assert!(is_whitespace(' '));
    assert!(is_whitespace('\n'));
    assert!(!is_whitespace('a'));
    assert!(!is_whitespace('%'));
}

#[test]
fn test_semicolon() {
    assert_tokens(";;", vec![Token::Semicolon, Token::Semicolon]);
}

#[test]
fn test_string_chars() {
    assert_eq!(lex_string_char('d', false), StrLexResult::Append);
    assert_eq!(lex_string_char('\'', false), StrLexResult::Append);
    assert_eq!(lex_string_char('"', false), StrLexResult::End);
    assert_eq!(lex_string_char('"', true), StrLexResult::Append);
    assert_eq!(lex_string_char('\\', false), StrLexResult::Escape);
    assert_eq!(lex_string_char('\\', true), StrLexResult::Append);
}

#[test]
fn test_string() {
    assert_tokens("\"Hello\"", vec![Token::Str(String::from("Hello"))]);
}

#[test]
fn test_combo() {
    assert_tokens(
        "\"Uno\"; \"Dos\"; \"Tres\"; Identifier",
        vec![
            Token::Str(String::from("Uno")),
            Token::Semicolon,
            Token::Whitespace,
            Token::Str(String::from("Dos")),
            Token::Semicolon,
            Token::Whitespace,
            Token::Str(String::from("Tres")),
            Token::Semicolon,
            Token::Whitespace,
            Token::Ident(String::from("Identifier")),
        ],
    );
}

#[test]
fn test_all() {
    assert_tokens(
        "\"Hello\"; ident{}@routine[]$var():-1000,|# comment",
        vec![
            Token::Str(String::from("Hello")),
            Token::Semicolon,
            Token::Whitespace,
            Token::Ident(String::from("ident")),
            Token::Curly(Side::Left),
            Token::Curly(Side::Right),
            Token::At,
            Token::Ident(String::from("routine")),
            Token::Square(Side::Left),
            Token::Square(Side::Right),
            Token::Variable(String::from("var")),
            Token::Paren(Side::Left),
            Token::Paren(Side::Right),
            Token::Colon,
            Token::Num(-1000),
            Token::Comma,
            Token::Pipe,
            Token::Comment(String::from(" comment")),
        ],
    );
}

#[test]
fn test_comment() {
    assert_tokens(
        "\"Foo\" # Comment\n \"Bar\"",
        vec![
            Token::Str(String::from("Foo")),
            Token::Whitespace,
            Token::Comment(String::from(" Comment")),
            Token::Whitespace,
            Token::Str(String::from("Bar")),
        ],
    );
}

#[test]
fn test_num() {
    assert_tokens(
        "12345;888;0;-10",
        vec![
            Token::Num(12345),
            Token::Semicolon,
            Token::Num(888),
            Token::Semicolon,
            Token::Num(0),
            Token::Semicolon,
            Token::Num(-10),
        ],
    );
}

#[test]
fn lex_escaped_quote_in_string() {
    assert_tokens("\"a\\\"b\"", vec![Token::Str(String::from("a\"b"))]);
}

#[test]
fn lex_unexpected_character_is_an_error() {
    assert_eq!(
        lex("foo %"),
        Err(LexError::UnexpectedToken(Token::Empty, TextPos(1, 4)))
    );
}

#[test]
fn lex_lone_minus_is_an_error() {
    assert_eq!(lex("- ;"), Err(LexError::InvalidNumber(TextPos(1, 1))));
}

#[test]
fn lex_positions_follow_lines() {
    let toks = lex("a\nb").unwrap();
    assert_eq!(toks[0], (Token::Ident(String::from("a")), TextPos(1, 1)));
    assert_eq!(toks[1], (Token::Whitespace, TextPos(2, 1)));
    assert_eq!(toks[2], (Token::Ident(String::from("b")), TextPos(2, 2)));
}

#[test]
fn lex_unfinished_string_is_kept() {
    assert_tokens("\"abc", vec![Token::Str(String::from("abc"))]);
}

#[test]
fn lex_empty_variable_name() {
    assert_tokens("$;", vec![Token::Variable(String::new()), Token::Semicolon]);
}

#[test]
fn as_string_of_tokens() {
    assert_eq!(Token::Empty.as_string(), "none");
    assert_eq!(Token::Num(-1000).as_string(), "-1000");
    assert_eq!(Token::Num(i64::MIN).as_string(), "-9223372036854775808");
    assert_eq!(Token::Str(String::from("x")).as_string(), "\"x\"");
    assert_eq!(Token::Comment(String::from("c")).as_string(), "# c");
    assert_eq!(Token::Variable(String::from("v")).as_string(), "$v");
    assert_eq!(Token::Angle(Side::Right).as_string(), ">");
}

#[test]
fn reduce_tokens_drops_whitespace_and_comments() {
    let toks = lex("a # c\n ;").unwrap();
    let reduced = reduce_tokens(&toks);
    let kinds: Vec<Token> = reduced.into_iter().map(|x| x.0).collect();
    assert_eq!(kinds, vec![Token::Ident(String::from("a")), Token::Semicolon]);
}

#[test]
fn positions_are_shown_as_line_and_column() {
    assert_eq!(TextPos(3, 14).to_text(), "(3:14)");
    assert_eq!(TextPos(0, 0).to_text(), "(0:0)");
}

#[test]
fn token_text_lexes_back() {
    let tokens = vec![
        Token::Semicolon,
        Token::Colon,
        Token::Comma,
        Token::Pipe,
        Token::At,
        Token::Bang,
        Token::Whitespace,
        Token::Curly(Side::Left),
        Token::Curly(Side::Right),
        Token::Square(Side::Left),
        Token::Square(Side::Right),
        Token::Paren(Side::Left),
        Token::Paren(Side::Right),
        Token::Angle(Side::Left),
        Token::Angle(Side::Right),
        Token::Num(0),
        Token::Num(-42),
        Token::Num(i64::MAX),
        Token::Num(i64::MIN),
        Token::Ident("fabric_api".to_string()),
        Token::Ident("_x9".to_string()),
        Token::Variable(String::new()),
        Token::Variable("name".to_string()),
        Token::Str(String::new()),
        Token::Str("hello world\nagain".to_string()),
    ];
    for t in tokens {
        let text = t.as_string();
        let lexed = lex(&text).unwrap();
        assert_eq!(lexed.len(), 1, "{}", text);
        assert_eq!(lexed[0].0, t);
    }
}

#[test]
fn whitespace_agrees_with_std() {
    for n in 0u32..0x3100 {
        if let Some(c) = char::from_u32(n) {
            assert_eq!(is_whitespace(c), c.is_whitespace(), "{:#x}", n);
        }
    }
}
