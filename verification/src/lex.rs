//! Token generation from package script text, which is passed into the parser.

use vstd::prelude::*;

use vstd::string::StringSliceAdditionalSpecFns;
use crate::text::{
    char_is_alphanumeric, char_is_numeric, char_is_whitespace, chars_of, i64_to_decimal,
    int_decimal, is_ascii_digit, lemma_nat_digits, lemma_parse_int_decimal, lemma_utf8_len_ge_chars, nat_digits, parse_i64, spec_char_is_alphanumeric,
    spec_char_is_numeric, spec_char_is_whitespace, spec_parse_i64, string_from_chars,
    string_push, string_push_str,
};

verus! {

/// Generic side for something like a bracket
#[derive(Debug, PartialEq, Eq, Structural, Copy, Clone)]
pub enum Side {
    Left,
    Right,
}

/// A token that we derive from text
#[derive(Debug, PartialEq, Clone)]
pub enum Token {
    Empty,
    Whitespace,
    Semicolon,
    Colon,
    Comma,
    Pipe,
    At,
    Bang,
    Variable(String),
    Curly(Side),
    Square(Side),
    Paren(Side),
    Angle(Side),
    Comment(String),
    Ident(String),
    Num(i64),
    Str(String),
}

/// The mathematical value of a token: its text fields as character sequences.
pub enum SToken {
    Empty,
    Whitespace,
    Semicolon,
    Colon,
    Comma,
    Pipe,
    At,
    Bang,
    Variable(Seq<char>),
    Curly(Side),
    Square(Side),
    Paren(Side),
    Angle(Side),
    Comment(Seq<char>),
    Ident(Seq<char>),
    Num(int),
    Str(Seq<char>),
}

impl View for Token {
    type V = SToken;

    open spec fn view(&self) -> SToken {
        match self {
            Token::Empty => SToken::Empty,
            Token::Whitespace => SToken::Whitespace,
            Token::Semicolon => SToken::Semicolon,
            Token::Colon => SToken::Colon,
            Token::Comma => SToken::Comma,
            Token::Pipe => SToken::Pipe,
            Token::At => SToken::At,
            Token::Bang => SToken::Bang,
            Token::Variable(s) => SToken::Variable(s@),
            Token::Curly(d) => SToken::Curly(*d),
            Token::Square(d) => SToken::Square(*d),
            Token::Paren(d) => SToken::Paren(*d),
            Token::Angle(d) => SToken::Angle(*d),
            Token::Comment(s) => SToken::Comment(s@),
            Token::Ident(s) => SToken::Ident(s@),
            Token::Num(n) => SToken::Num(*n as int),
            Token::Str(s) => SToken::Str(s@),
        }
    }
}

/// The text that stands for a token when it is shown to the user.
pub open spec fn token_text(t: SToken) -> Seq<char> {
    match t {
        SToken::Empty => seq!['n', 'o', 'n', 'e'],
        SToken::Whitespace => seq![' '],
        SToken::Semicolon => seq![';'],
        SToken::Colon => seq![':'],
        SToken::Comma => seq![','],
        SToken::Pipe => seq!['|'],
        SToken::At => seq!['@'],
        SToken::Bang => seq!['!'],
        SToken::Variable(name) => seq!['$'] + name,
        SToken::Curly(Side::Left) => seq!['{'],
        SToken::Curly(Side::Right) => seq!['}'],
        SToken::Square(Side::Left) => seq!['['],
        SToken::Square(Side::Right) => seq![']'],
        SToken::Paren(Side::Left) => seq!['('],
        SToken::Paren(Side::Right) => seq![')'],
        SToken::Angle(Side::Left) => seq!['<'],
        SToken::Angle(Side::Right) => seq!['>'],
        SToken::Comment(text) => seq!['#', ' '] + text,
        SToken::Ident(name) => name,
        SToken::Num(n) => int_decimal(n),
        SToken::Str(s) => seq!['"'] + s + seq!['"'],
    }
}

fn text_of_char(c: char) -> (r: String)
    ensures
        r@ == seq![c],
{
    let mut out = String::new();
    string_push(&mut out, c);
    out
}

impl Token {
    /// The text that stands for this token when it is shown to the user.
    pub fn as_string(&self) -> (r: String)
        ensures
            r@ == token_text(self@),
    {
        match self {
            Token::Empty => {
                let mut out = String::new();
                string_push(&mut out, 'n');
                string_push(&mut out, 'o');
                string_push(&mut out, 'n');
                string_push(&mut out, 'e');
                proof {
                    assert(out@ =~= seq!['n', 'o', 'n', 'e']);
                }
                out
            },
            Token::Whitespace => text_of_char(' '),
            Token::Semicolon => text_of_char(';'),
            Token::Colon => text_of_char(':'),
            Token::Comma => text_of_char(','),
            Token::Pipe => text_of_char('|'),
            Token::At => text_of_char('@'),
            Token::Bang => text_of_char('!'),
            Token::Variable(name) => {
                let mut out = text_of_char('$');
                string_push_str(&mut out, name.as_str());
                out
            },
            Token::Curly(Side::Left) => text_of_char('{'),
            Token::Curly(Side::Right) => text_of_char('}'),
            Token::Square(Side::Left) => text_of_char('['),
            Token::Square(Side::Right) => text_of_char(']'),
            Token::Paren(Side::Left) => text_of_char('('),
            Token::Paren(Side::Right) => text_of_char(')'),
            Token::Angle(Side::Left) => text_of_char('<'),
            Token::Angle(Side::Right) => text_of_char('>'),
            Token::Comment(text) => {
                let mut out = text_of_char('#');
                string_push(&mut out, ' ');
                string_push_str(&mut out, text.as_str());
                proof {
                    assert(seq!['#'].push(' ') =~= seq!['#', ' ']);
                }
                out
            },
            Token::Ident(name) => name.clone(),
            Token::Num(num) => i64_to_decimal(*num),
            Token::Str(string) => {
                let mut out = text_of_char('"');
                string_push_str(&mut out, string.as_str());
                string_push(&mut out, '"');
                proof {
                    assert((seq!['"'] + string@).push('"') =~= seq!['"'] + string@ + seq!['"']);
                }
                out
            },
        }
    }

    /// A copy of this token.
    pub fn duplicate(&self) -> (r: Token)
        ensures
            r@ == self@,
    {
        match self {
            Token::Empty => Token::Empty,
            Token::Whitespace => Token::Whitespace,
            Token::Semicolon => Token::Semicolon,
            Token::Colon => Token::Colon,
            Token::Comma => Token::Comma,
            Token::Pipe => Token::Pipe,
            Token::At => Token::At,
            Token::Bang => Token::Bang,
            Token::Variable(s) => Token::Variable(s.clone()),
            Token::Curly(d) => Token::Curly(*d),
            Token::Square(d) => Token::Square(*d),
            Token::Paren(d) => Token::Paren(*d),
            Token::Angle(d) => Token::Angle(*d),
            Token::Comment(s) => Token::Comment(s.clone()),
            Token::Ident(s) => Token::Ident(s.clone()),
            Token::Num(n) => Token::Num(*n),
            Token::Str(s) => Token::Str(s.clone()),
        }
    }
}

/// Text positional information with row and column
#[derive(Debug, Clone, Copy, PartialEq, Eq)]
pub struct TextPos(pub usize, pub usize);

impl View for TextPos {
    type V = (nat, nat);

    open spec fn view(&self) -> (nat, nat) {
        (self.0 as nat, self.1 as nat)
    }
}

/// The text of a position: its line and column in parentheses, split by a colon.
pub open spec fn spec_pos_text(pos: (nat, nat)) -> Seq<char> {
    seq!['('] + crate::text::nat_digits(pos.0) + seq![':'] + crate::text::nat_digits(pos.1) + seq![')']
}

impl TextPos {
    /// The text that shows this position to the user
    pub fn to_text(&self) -> (r: String)
        ensures
            r@ == spec_pos_text(self@),
    {
        let mut out = String::new();
        crate::text::string_push(&mut out, '(');
        let line = crate::text::u64_to_decimal(self.0 as u64);
        crate::text::string_push_str(&mut out, line.as_str());
        crate::text::string_push(&mut out, ':');
        let col = crate::text::u64_to_decimal(self.1 as u64);
        crate::text::string_push_str(&mut out, col.as_str());
        crate::text::string_push(&mut out, ')');
        proof {
            assert(out@ =~= spec_pos_text(self@));
        }
        out
    }
}

/// Token and TextPos
pub type TokenAndPos = (Token, TextPos);

/// The mathematical value of a list of tokens with their positions.
pub open spec fn tokens_view(ts: Seq<(Token, TextPos)>) -> Seq<(SToken, (nat, nat))> {
    ts.map_values(|p: (Token, TextPos)| (p.0@, p.1@))
}

/// What action to perform after lexing a string character
#[derive(Debug, PartialEq, Eq, Structural, Copy, Clone)]
pub enum StrLexResult {
    Append,
    Escape,
    End,
}

/// The action for a character of a string literal.
pub open spec fn spec_lex_string_char(c: char, escape: bool) -> StrLexResult {
    if escape {
        StrLexResult::Append
    } else if c == '"' {
        StrLexResult::End
    } else if c == '\\' {
        StrLexResult::Escape
    } else {
        StrLexResult::Append
    }
}

/// Figure out what to do with a character of a string when lexing
pub fn lex_string_char(c: char, escape: bool) -> (r: StrLexResult)
    ensures
        r == spec_lex_string_char(c, escape),
{
    if escape {
        StrLexResult::Append
    } else if c == '"' {
        StrLexResult::End
    } else if c == '\\' {
        StrLexResult::Escape
    } else {
        StrLexResult::Append
    }
}

/// Checks if a character is whitespace
pub fn is_whitespace(c: char) -> (r: bool)
    ensures
        r == spec_char_is_whitespace(c),
{
    char_is_whitespace(c)
}

/// Whether a character may stand in an identifier; the first character may not be numeric.
pub open spec fn spec_is_ident(c: char, first: bool) -> bool {
    if first && spec_char_is_numeric(c) {
        false
    } else {
        spec_char_is_alphanumeric(c) || c == '_'
    }
}

/// Whether a character may stand in an integer; only the first may be a minus sign.
pub open spec fn spec_is_num(c: char, first: bool) -> bool {
    if first {
        spec_char_is_numeric(c) || c == '-'
    } else {
        spec_char_is_numeric(c)
    }
}

/// Checks if a character is part of a valid identifier
pub fn is_ident(c: char, first: bool) -> (r: bool)
    ensures
        r == spec_is_ident(c, first),
{
    if first && char_is_numeric(c) {
        return false;
    }
    char_is_alphanumeric(c) || c == '_'
}

/// Checks if a character is part of an integer
pub fn is_num(c: char, first: bool) -> (r: bool)
    ensures
        r == spec_is_num(c, first),
{
    if first {
        char_is_numeric(c) || c == '-'
    } else {
        char_is_numeric(c)
    }
}

/// The kind of token that the lexer is in the middle of reading.
#[derive(Debug, PartialEq, Eq, Structural, Copy, Clone)]
pub enum Pending {
    Idle,
    Whitespace,
    Variable,
    Comment,
    Ident,
    Num,
    Str,
}

/// Why lexing stopped with an error.
#[derive(Debug, PartialEq, Clone)]
pub enum LexError {
    /// A character that no token starts with, at the given position
    UnexpectedToken(Token, TextPos),
    /// A lone minus sign where a number was expected, at the given position
    InvalidNumber(TextPos),
}

/// The mathematical value of a lexing error.
pub enum SLexError {
    UnexpectedToken(SToken, (nat, nat)),
    InvalidNumber((nat, nat)),
}

impl View for LexError {
    type V = SLexError;

    open spec fn view(&self) -> SLexError {
        match self {
            LexError::UnexpectedToken(t, p) => SLexError::UnexpectedToken(t@, p@),
            LexError::InvalidNumber(p) => SLexError::InvalidNumber(p@),
        }
    }
}

/// The state of the lexer between two characters.
pub struct LexState {
    /// Tokens emitted so far
    pub tokens: Seq<(SToken, (nat, nat))>,
    /// Current line number
    pub line: nat,
    /// Character index of the last line break
    pub last_line: nat,
    /// The token being read
    pub pending: Pending,
    /// The text of the token being read
    pub buf: Seq<char>,
    /// Whether the previous character of a string literal was a backslash
    pub escape: bool,
}

/// What comes of one lexing step, or of the whole run.
pub enum LexStep {
    Next(LexState),
    Fail(SLexError),
    /// The number text cannot be read as an `i64`; the lexer panics on it
    Panic,
}

/// The outcome of lexing a whole text.
pub enum LexOutcome {
    Tokens(Seq<(SToken, (nat, nat))>),
    Fail(SLexError),
    Panic,
}

/// The token that is emitted at once for a punctuation character, if `c` is one.
pub open spec fn punctuation(c: char) -> Option<SToken> {
    if c == ';' {
        Some(SToken::Semicolon)
    } else if c == ':' {
        Some(SToken::Colon)
    } else if c == ',' {
        Some(SToken::Comma)
    } else if c == '|' {
        Some(SToken::Pipe)
    } else if c == '{' {
        Some(SToken::Curly(Side::Left))
    } else if c == '}' {
        Some(SToken::Curly(Side::Right))
    } else if c == '[' {
        Some(SToken::Square(Side::Left))
    } else if c == ']' {
        Some(SToken::Square(Side::Right))
    } else if c == '(' {
        Some(SToken::Paren(Side::Left))
    } else if c == ')' {
        Some(SToken::Paren(Side::Right))
    } else if c == '<' {
        Some(SToken::Angle(Side::Left))
    } else if c == '>' {
        Some(SToken::Angle(Side::Right))
    } else if c == '@' {
        Some(SToken::At)
    } else if c == '!' {
        Some(SToken::Bang)
    } else {
        None
    }
}

/// Starts a new token with character `c`, with nothing pending.
pub open spec fn lex_start(
    tokens: Seq<(SToken, (nat, nat))>,
    c: char,
    pos: (nat, nat),
    line: nat,
    last_line: nat,
) -> LexStep {
    let st = LexState {
        tokens,
        line,
        last_line,
        pending: Pending::Idle,
        buf: Seq::empty(),
        escape: false,
    };
    if let Some(t) = punctuation(c) {
        LexStep::Next(LexState { tokens: tokens.push((t, pos)), ..st })
    } else if c == '"' {
        LexStep::Next(LexState { pending: Pending::Str, ..st })
    } else if c == '#' {
        LexStep::Next(LexState { pending: Pending::Comment, ..st })
    } else if c == '$' {
        LexStep::Next(LexState { pending: Pending::Variable, ..st })
    } else if spec_char_is_whitespace(c) {
        LexStep::Next(LexState { pending: Pending::Whitespace, ..st })
    } else if spec_is_num(c, true) {
        LexStep::Next(LexState { pending: Pending::Num, buf: seq![c], ..st })
    } else if spec_is_ident(c, true) {
        LexStep::Next(LexState { pending: Pending::Ident, buf: seq![c], ..st })
    } else {
        LexStep::Fail(SLexError::UnexpectedToken(SToken::Empty, pos))
    }
}

/// Emits the pending token and starts again from `c`.
pub open spec fn lex_flush(st: LexState, t: SToken, c: char, pos: (nat, nat), line: nat, last_line: nat) -> LexStep {
    lex_start(st.tokens.push((t, pos)), c, pos, line, last_line)
}

/// One step of the lexer on character `c` at index `i`.
pub open spec fn lex_step(st: LexState, c: char, i: nat) -> LexStep {
    let pos = (st.line, (i - st.last_line) as nat);
    let line = if c == '\n' { st.line + 1 } else { st.line };
    let last_line = if c == '\n' { i } else { st.last_line };
    let moved = LexState { line, last_line, ..st };
    match st.pending {
        Pending::Idle => lex_start(st.tokens, c, pos, line, last_line),
        Pending::Str => match spec_lex_string_char(c, st.escape) {
            StrLexResult::Append => LexStep::Next(LexState { buf: st.buf.push(c), escape: false, ..moved }),
            StrLexResult::Escape => LexStep::Next(LexState { escape: true, ..moved }),
            StrLexResult::End => LexStep::Next(
                LexState {
                    tokens: st.tokens.push((SToken::Str(st.buf), pos)),
                    pending: Pending::Idle,
                    buf: Seq::empty(),
                    escape: false,
                    ..moved
                },
            ),
        },
        Pending::Comment => if c == '\n' {
            LexStep::Next(
                LexState {
                    tokens: st.tokens.push((SToken::Comment(st.buf), pos)),
                    pending: Pending::Idle,
                    buf: Seq::empty(),
                    ..moved
                },
            )
        } else {
            LexStep::Next(LexState { buf: st.buf.push(c), ..moved })
        },
        Pending::Variable => if spec_is_ident(c, st.buf.len() == 0) {
            LexStep::Next(LexState { buf: st.buf.push(c), ..moved })
        } else {
            lex_flush(st, SToken::Variable(st.buf), c, pos, line, last_line)
        },
        Pending::Whitespace => if spec_char_is_whitespace(c) {
            LexStep::Next(moved)
        } else {
            lex_flush(st, SToken::Whitespace, c, pos, line, last_line)
        },
        Pending::Ident => if spec_is_ident(c, false) {
            LexStep::Next(LexState { buf: st.buf.push(c), ..moved })
        } else {
            lex_flush(st, SToken::Ident(st.buf), c, pos, line, last_line)
        },
        Pending::Num => if spec_is_num(c, false) {
            LexStep::Next(LexState { buf: st.buf.push(c), ..moved })
        } else if st.buf == seq!['-'] {
            LexStep::Fail(SLexError::InvalidNumber(pos))
        } else {
            match spec_parse_i64(st.buf) {
                Some(v) => lex_flush(st, SToken::Num(v), c, pos, line, last_line),
                None => LexStep::Panic,
            }
        },
    }
}

/// The token left pending at the end of the text.
pub open spec fn lex_finish(st: LexState, byte_len: nat) -> LexOutcome {
    let pos = (st.line, (byte_len - st.last_line) as nat);
    match st.pending {
        Pending::Idle => LexOutcome::Tokens(st.tokens),
        Pending::Num => match spec_parse_i64(st.buf) {
            Some(v) => LexOutcome::Tokens(st.tokens.push((SToken::Num(v), pos))),
            None => LexOutcome::Panic,
        },
        Pending::Whitespace => LexOutcome::Tokens(st.tokens.push((SToken::Whitespace, pos))),
        Pending::Variable => LexOutcome::Tokens(st.tokens.push((SToken::Variable(st.buf), pos))),
        Pending::Comment => LexOutcome::Tokens(st.tokens.push((SToken::Comment(st.buf), pos))),
        Pending::Ident => LexOutcome::Tokens(st.tokens.push((SToken::Ident(st.buf), pos))),
        Pending::Str => LexOutcome::Tokens(st.tokens.push((SToken::Str(st.buf), pos))),
    }
}

/// Runs the lexer from character index `i` in state `st` to the end of the text.
pub open spec fn lex_run(cs: Seq<char>, i: nat, st: LexState, byte_len: nat) -> LexOutcome
    decreases cs.len() - i,
{
    if i >= cs.len() {
        lex_finish(st, byte_len)
    } else {
        match lex_step(st, cs[i as int], i) {
            LexStep::Next(next) => lex_run(cs, i + 1, next, byte_len),
            LexStep::Fail(e) => LexOutcome::Fail(e),
            LexStep::Panic => LexOutcome::Panic,
        }
    }
}

/// The lexer's initial state.
pub open spec fn lex_init() -> LexState {
    LexState {
        tokens: Seq::empty(),
        line: 1,
        last_line: 0,
        pending: Pending::Idle,
        buf: Seq::empty(),
        escape: false,
    }
}

/// What lexing `text` gives: its tokens with their positions, an error, or a panic on
/// number text that is not an `i64`.
pub open spec fn spec_lex(text: &str) -> LexOutcome {
    lex_run(text@, 0, lex_init(), text.spec_bytes().len())
}


/// Whether the lexer, reading a token of kind `p` whose text has `n` characters so far,
/// adds `c` to that text.
pub open spec fn appends(p: Pending, c: char, n: nat) -> bool {
    match p {
        Pending::Ident => spec_is_ident(c, false),
        Pending::Variable => spec_is_ident(c, n == 0),
        Pending::Num => spec_is_num(c, false),
        Pending::Str => c != '"' && c != '\\',
        _ => false,
    }
}

proof fn lemma_lex_appends(cs: Seq<char>, i: nat, e: nat, st: LexState, bl: nat) -> (st2: LexState)
    requires
        i <= e <= cs.len(),
        !st.escape,
        forall|j: int| i <= j < e ==> appends(st.pending, #[trigger] cs[j], (st.buf.len() + j - i) as nat),
    ensures
        lex_run(cs, i, st, bl) == lex_run(cs, e, st2, bl),
        st2.pending == st.pending,
        st2.tokens == st.tokens,
        st2.buf == st.buf + cs.subrange(i as int, e as int),
        !st2.escape,
    decreases e - i,
{
    if i == e {
        assert(st.buf + cs.subrange(i as int, e as int) =~= st.buf);
        st
    } else {
        let c = cs[i as int];
        assert(appends(st.pending, c, st.buf.len()));
        let next = match lex_step(st, c, i) {
            LexStep::Next(n) => n,
            _ => st,
        };
        assert(lex_step(st, c, i) is Next);
        assert(next.buf == st.buf.push(c));
        let r = lemma_lex_appends(cs, i + 1, e, next, bl);
        assert(st.buf.push(c) + cs.subrange((i + 1) as int, e as int) =~= st.buf + cs.subrange(i as int, e as int));
        r
    }
}

/// A token whose text the lexer reads back as that one token: punctuation, whitespace,
/// an `i64` number, an identifier that does not start with a number or whitespace, a
/// variable whose name is empty or such an identifier, and a string without quotes or
/// backslashes.
pub open spec fn lexes_back(t: SToken) -> bool {
    match t {
        SToken::Empty => false,
        SToken::Comment(_) => false,
        SToken::Num(n) => i64::MIN <= n <= i64::MAX,
        SToken::Ident(s) => s.len() > 0 && !spec_char_is_whitespace(s[0]) && forall|i: int|
            0 <= i < s.len() ==> spec_is_ident(#[trigger] s[i], i == 0),
        SToken::Variable(s) => forall|i: int| 0 <= i < s.len() ==> spec_is_ident(#[trigger] s[i], i == 0),
        SToken::Str(s) => forall|i: int| 0 <= i < s.len() ==> #[trigger] s[i] != '"' && s[i] != '\\',
        _ => true,
    }
}

/// Lexing the text of a single token gives back exactly that token.
pub proof fn law_lex_token_text(t: SToken, text: &str)
    requires
        text@ == token_text(t),
        lexes_back(t),
    ensures
        spec_lex(text) matches LexOutcome::Tokens(ts) && ts.len() == 1 && ts[0].0 == t,
{
    let cs = text@;
    let bl = text.spec_bytes().len();
    let c = cs[0];
    let init = lex_init();
    let pos = (1nat, 0nat);
    match t {
        SToken::Num(n) => {
            lemma_parse_int_decimal(n);
            lemma_nat_digits(if n < 0 { (-n) as nat } else { n as nat });
            assert(c == '-' || is_ascii_digit(c));
            let st1 = LexState { pending: Pending::Num, buf: seq![c], ..init };
            assert(lex_step(init, c, 0) == LexStep::Next(st1));
            assert forall|j: int| 1 <= j < cs.len() implies appends(Pending::Num, #[trigger] cs[j], (1 + j - 1) as nat) by {
                if n < 0 {
                    assert(cs[j] == nat_digits((-n) as nat)[j - 1]);
                }
            }
            let st2 = lemma_lex_appends(cs, 1, cs.len(), st1, bl);
            assert(seq![c] + cs.subrange(1, cs.len() as int) =~= cs);
            assert(spec_lex(text) == lex_run(cs, 1, st1, bl));
            assert(lex_run(cs, cs.len(), st2, bl) == lex_finish(st2, bl));
            assert(spec_parse_i64(st2.buf) == Some(n));
        },
        SToken::Ident(name) => {
            let st1 = LexState { pending: Pending::Ident, buf: seq![c], ..init };
            assert(spec_is_ident(c, true));
            assert(punctuation(c) is None);
            assert(lex_step(init, c, 0) == LexStep::Next(st1));
            assert forall|j: int| 1 <= j < cs.len() implies appends(Pending::Ident, #[trigger] cs[j], (1 + j - 1) as nat) by {
                assert(spec_is_ident(name[j], j == 0));
            }
            let st2 = lemma_lex_appends(cs, 1, cs.len(), st1, bl);
            assert(seq![c] + cs.subrange(1, cs.len() as int) =~= cs);
            assert(spec_lex(text) == lex_run(cs, 1, st1, bl));
            assert(lex_run(cs, cs.len(), st2, bl) == lex_finish(st2, bl));
        },
        SToken::Variable(name) => {
            let st1 = LexState { pending: Pending::Variable, ..init };
            assert(c == '$');
            assert(lex_step(init, c, 0) == LexStep::Next(st1));
            assert forall|j: int| 1 <= j < cs.len() implies appends(Pending::Variable, #[trigger] cs[j], (0 + j - 1) as nat) by {
                assert(cs[j] == name[j - 1]);
                assert(spec_is_ident(name[j - 1], j - 1 == 0));
            }
            let st2 = lemma_lex_appends(cs, 1, cs.len(), st1, bl);
            assert(Seq::<char>::empty() + cs.subrange(1, cs.len() as int) =~= name);
            assert(spec_lex(text) == lex_run(cs, 1, st1, bl));
            assert(lex_run(cs, cs.len(), st2, bl) == lex_finish(st2, bl));
        },
        SToken::Str(body) => {
            let st1 = LexState { pending: Pending::Str, ..init };
            let e = (cs.len() - 1) as nat;
            assert(c == '"');
            assert(lex_step(init, c, 0) == LexStep::Next(st1));
            assert forall|j: int| 1 <= j < e implies appends(Pending::Str, #[trigger] cs[j], (0 + j - 1) as nat) by {
                assert(cs[j] == body[j - 1]);
            }
            let st2 = lemma_lex_appends(cs, 1, e, st1, bl);
            assert(Seq::<char>::empty() + cs.subrange(1, e as int) =~= body);
            assert(cs[e as int] == '"');
            assert(spec_lex(text) == lex_run(cs, 1, st1, bl));
            let st3 = match lex_step(st2, '"', e) {
                LexStep::Next(n) => n,
                _ => st2,
            };
            assert(lex_run(cs, e, st2, bl) == lex_run(cs, e + 1, st3, bl));
            assert(lex_run(cs, e + 1, st3, bl) == lex_finish(st3, bl));
        },
        SToken::Whitespace => {
            assert(c == ' ');
            assert(spec_char_is_whitespace(c));
            let st1 = LexState { pending: Pending::Whitespace, ..init };
            assert(lex_step(init, c, 0) == LexStep::Next(st1));
            assert(spec_lex(text) == lex_run(cs, 1, st1, bl));
        },
        _ => {
            assert(cs.len() == 1);
            assert(punctuation(c) == Some(t));
            let st1 = LexState { tokens: seq![(t, pos)], ..init };
            assert(lex_step(init, c, 0) == LexStep::Next(st1));
            assert(spec_lex(text) == lex_run(cs, 1, st1, bl));
        },
    }
}

/// The lexer state that the executable variables stand for.
pub open spec fn state_of(
    tokens: Seq<(Token, TextPos)>,
    line: usize,
    last_line: usize,
    pending: Pending,
    buf: Seq<char>,
    escape: bool,
) -> LexState {
    LexState { tokens: tokens_view(tokens), line: line as nat, last_line: last_line as nat, pending, buf, escape }
}

proof fn lemma_tokens_view_push(ts: Seq<(Token, TextPos)>, t: Token, p: TextPos)
    ensures
        tokens_view(ts.push((t, p))) == tokens_view(ts).push((t@, p@)),
{
    assert(tokens_view(ts.push((t, p))) =~= tokens_view(ts).push((t@, p@)));
}

/// Pushes a token with its position.
fn emit(tokens: &mut Vec<(Token, TextPos)>, t: Token, pos: TextPos)
    ensures
        tokens_view(final(tokens)@) == tokens_view(old(tokens)@).push((t@, pos@)),
{
    proof {
        lemma_tokens_view_push(tokens@, t, pos);
    }
    tokens.push((t, pos));
}

/// The punctuation token for `c`, if `c` is one.
fn exec_punctuation(c: char) -> (r: Option<Token>)
    ensures
        r matches Some(t) ==> punctuation(c) == Some(t@),
        r is None ==> punctuation(c) is None,
{
    if c == ';' {
        Some(Token::Semicolon)
    } else if c == ':' {
        Some(Token::Colon)
    } else if c == ',' {
        Some(Token::Comma)
    } else if c == '|' {
        Some(Token::Pipe)
    } else if c == '{' {
        Some(Token::Curly(Side::Left))
    } else if c == '}' {
        Some(Token::Curly(Side::Right))
    } else if c == '[' {
        Some(Token::Square(Side::Left))
    } else if c == ']' {
        Some(Token::Square(Side::Right))
    } else if c == '(' {
        Some(Token::Paren(Side::Left))
    } else if c == ')' {
        Some(Token::Paren(Side::Right))
    } else if c == '<' {
        Some(Token::Angle(Side::Left))
    } else if c == '>' {
        Some(Token::Angle(Side::Right))
    } else if c == '@' {
        Some(Token::At)
    } else if c == '!' {
        Some(Token::Bang)
    } else {
        None
    }
}

/// Starts a token with `c` when nothing is pending; returns the new pending kind and text.
fn exec_start(tokens: &mut Vec<(Token, TextPos)>, c: char, pos: TextPos) -> (r: Result<
    (Pending, Vec<char>),
    LexError,
>)
    ensures
        ({
            let line = 0nat;
            let last = 0nat;
            match lex_start(tokens_view(old(tokens)@), c, pos@, line, last) {
                LexStep::Next(st) => r matches Ok((p, b)) && tokens_view(final(tokens)@) == st.tokens
                    && p == st.pending && b@ == st.buf,
                LexStep::Fail(e) => r matches Err(err) && err@ == e,
                LexStep::Panic => false,
            }
        }),
{
    if let Some(t) = exec_punctuation(c) {
        emit(tokens, t, pos);
        Ok((Pending::Idle, Vec::new()))
    } else if c == '"' {
        Ok((Pending::Str, Vec::new()))
    } else if c == '#' {
        Ok((Pending::Comment, Vec::new()))
    } else if c == '$' {
        Ok((Pending::Variable, Vec::new()))
    } else if is_whitespace(c) {
        Ok((Pending::Whitespace, Vec::new()))
    } else if is_num(c, true) {
        let mut b = Vec::new();
        b.push(c);
        Ok((Pending::Num, b))
    } else if is_ident(c, true) {
        let mut b = Vec::new();
        b.push(c);
        Ok((Pending::Ident, b))
    } else {
        Err(LexError::UnexpectedToken(Token::Empty, pos))
    }
}

/// `lex_start` does not depend on the line fields for what it emits.
proof fn lemma_start_lines(
    tokens: Seq<(SToken, (nat, nat))>,
    c: char,
    pos: (nat, nat),
    l1: nat,
    s1: nat,
    l2: nat,
    s2: nat,
)
    ensures
        match (lex_start(tokens, c, pos, l1, s1), lex_start(tokens, c, pos, l2, s2)) {
            (LexStep::Next(a), LexStep::Next(b)) => a.tokens == b.tokens && a.pending == b.pending
                && a.buf == b.buf && a.escape == b.escape && a.line == l1 && a.last_line == s1
                && b.line == l2 && b.last_line == s2,
            (LexStep::Fail(a), LexStep::Fail(b)) => a == b,
            _ => false,
        },
{
}

/// Create a list of tokens from package text contents that we will
/// then use for parsing
pub fn lex(text: &str) -> (r: Result<Vec<(Token, TextPos)>, LexError>)
    requires
        text.spec_bytes().len() < usize::MAX,
        !(spec_lex(text) is Panic),
    ensures
        r matches Ok(ts) ==> spec_lex(text) == LexOutcome::Tokens(tokens_view(ts@)),
        r matches Err(e) ==> spec_lex(text) == LexOutcome::Fail(e@),
{
    match try_lex(text) {
        Some(r) => r,
        None => vstd::pervasive::unreached(),
    }
}

/// Lexes the text where lexing it does not panic; `None` where it would, which is on a
/// number that does not fit an `i64`
pub fn try_lex(text: &str) -> (r: Option<Result<Vec<(Token, TextPos)>, LexError>>)
    requires
        text.spec_bytes().len() < usize::MAX,
    ensures
        r matches Some(Ok(ts)) ==> spec_lex(text) == LexOutcome::Tokens(tokens_view(ts@)),
        r matches Some(Err(e)) ==> spec_lex(text) == LexOutcome::Fail(e@),
        r is None <==> spec_lex(text) is Panic,
{
    let cs = chars_of(text);
    let byte_len = text.len();
    proof {
        lemma_utf8_len_ge_chars(text@);
    }
    let ghost bl = text.spec_bytes().len();
    proof {
        assert(cs@.len() < usize::MAX);
    }
    let mut tokens: Vec<(Token, TextPos)> = Vec::new();
    let mut line_n: usize = 1;
    let mut last_line_i: usize = 0;
    let mut pending = Pending::Idle;
    let mut buf: Vec<char> = Vec::new();
    let mut escape = false;
    let mut i: usize = 0;
    proof {
        assert(tokens_view(tokens@) =~= Seq::empty());
        assert(state_of(tokens@, line_n, last_line_i, pending, buf@, escape) == lex_init());
    }
    while i < cs.len()
        invariant
            cs@ == text@,
            cs@.len() < usize::MAX,
            byte_len == bl,
            bl >= cs@.len(),
            i <= cs@.len(),
            1 <= line_n <= i + 1,
            last_line_i <= i,
            spec_lex(text) == lex_run(cs@, i as nat, state_of(tokens@, line_n, last_line_i, pending, buf@, escape), bl),
        decreases cs@.len() - i,
    {
        let c = cs[i];
        let pos = TextPos(line_n, i - last_line_i);
        let (nline, nlast) = if c == '\n' {
            (line_n + 1, i)
        } else {
            (line_n, last_line_i)
        };
        let ghost st = state_of(tokens@, line_n, last_line_i, pending, buf@, escape);
        let ghost step = lex_step(st, c, i as nat);
        proof {
            assert(pos@ == (st.line, (i - st.last_line) as nat));
        }
        match pending {
            Pending::Idle => {
                let r = exec_start(&mut tokens, c, pos);
                proof {
                    lemma_start_lines(st.tokens, c, pos@, 0, 0, nline as nat, nlast as nat);
                }
                match r {
                    Ok((p, b)) => {
                        pending = p;
                        buf = b;
                        escape = false;
                    },
                    Err(e) => {
                        return Some(Err(e));
                    },
                }
            },
            Pending::Str => {
                match lex_string_char(c, escape) {
                    StrLexResult::Append => {
                        buf.push(c);
                        escape = false;
                    },
                    StrLexResult::Escape => {
                        escape = true;
                    },
                    StrLexResult::End => {
                        let s = string_from_chars(buf.as_slice());
                        emit(&mut tokens, Token::Str(s), pos);
                        pending = Pending::Idle;
                        buf = Vec::new();
                        escape = false;
                    },
                }
            },
            Pending::Comment => {
                if c == '\n' {
                    let s = string_from_chars(buf.as_slice());
                    emit(&mut tokens, Token::Comment(s), pos);
                    pending = Pending::Idle;
                    buf = Vec::new();
                } else {
                    buf.push(c);
                }
            },
            Pending::Variable => {
                if is_ident(c, buf.len() == 0) {
                    buf.push(c);
                } else {
                    let s = string_from_chars(buf.as_slice());
                    emit(&mut tokens, Token::Variable(s), pos);
                    let r = exec_start(&mut tokens, c, pos);
                    proof {
                        lemma_start_lines(tokens_view(tokens@).drop_last(), c, pos@, 0, 0, nline as nat, nlast as nat);
                    }
                    match r {
                        Ok((p, b)) => {
                            pending = p;
                            buf = b;
                            escape = false;
                        },
                        Err(e) => {
                            return Some(Err(e));
                        },
                    }
                }
            },
            Pending::Whitespace => {
                if !is_whitespace(c) {
                    emit(&mut tokens, Token::Whitespace, pos);
                    let r = exec_start(&mut tokens, c, pos);
                    match r {
                        Ok((p, b)) => {
                            pending = p;
                            buf = b;
                            escape = false;
                        },
                        Err(e) => {
                            return Some(Err(e));
                        },
                    }
                }
            },
            Pending::Ident => {
                if is_ident(c, false) {
                    buf.push(c);
                } else {
                    let s = string_from_chars(buf.as_slice());
                    emit(&mut tokens, Token::Ident(s), pos);
                    let r = exec_start(&mut tokens, c, pos);
                    match r {
                        Ok((p, b)) => {
                            pending = p;
                            buf = b;
                            escape = false;
                        },
                        Err(e) => {
                            return Some(Err(e));
                        },
                    }
                }
            },
            Pending::Num => {
                if is_num(c, false) {
                    buf.push(c);
                } else {
                    if buf.len() == 1 && buf[0] == '-' {
                        proof {
                            assert(buf@ =~= seq!['-']);
                        }
                        return Some(Err(LexError::InvalidNumber(pos)));
                    }
                    proof {
                        assert(buf@ != seq!['-']);
                    }
                    match parse_i64(buf.as_slice()) {
                        Some(v) => {
                            emit(&mut tokens, Token::Num(v), pos);
                            let r = exec_start(&mut tokens, c, pos);
                            match r {
                                Ok((p, b)) => {
                                    pending = p;
                                    buf = b;
                                    escape = false;
                                },
                                Err(e) => {
                                    return Some(Err(e));
                                },
                            }
                        },
                        None => {
                            proof {
                                assert(step is Panic);
                            }
                            return None;
                        },
                    }
                }
            },
        }
        line_n = nline;
        last_line_i = nlast;
        i = i + 1;
    }
    let final_pos = TextPos(line_n, byte_len - last_line_i);
    match pending {
        Pending::Idle => {},
        Pending::Num => {
            match parse_i64(buf.as_slice()) {
                Some(v) => {
                    emit(&mut tokens, Token::Num(v), final_pos);
                },
                None => {
                    return None;
                },
            }
        },
        Pending::Whitespace => {
            emit(&mut tokens, Token::Whitespace, final_pos);
        },
        Pending::Variable => {
            let s = string_from_chars(buf.as_slice());
            emit(&mut tokens, Token::Variable(s), final_pos);
        },
        Pending::Comment => {
            let s = string_from_chars(buf.as_slice());
            emit(&mut tokens, Token::Comment(s), final_pos);
        },
        Pending::Ident => {
            let s = string_from_chars(buf.as_slice());
            emit(&mut tokens, Token::Ident(s), final_pos);
        },
        Pending::Str => {
            let s = string_from_chars(buf.as_slice());
            emit(&mut tokens, Token::Str(s), final_pos);
        },
    }
    Some(Ok(tokens))
}

/// Whether a token carries meaning for the parser (not whitespace, a comment or nothing).
pub open spec fn is_meaningful(t: SToken) -> bool {
    !(t is Comment || t is Whitespace || t is Empty)
}

/// The tokens that carry meaning, in order.
pub open spec fn reduced(ts: Seq<(SToken, (nat, nat))>) -> Seq<(SToken, (nat, nat))> {
    ts.filter(|p: (SToken, (nat, nat))| is_meaningful(p.0))
}

/// Removes whitespace characters and comments from a list of tokens
pub fn reduce_tokens(tokens: &[(Token, TextPos)]) -> (r: Vec<(Token, TextPos)>)
    ensures
        tokens_view(r@) == reduced(tokens_view(tokens@)),
{
    let mut out: Vec<(Token, TextPos)> = Vec::new();
    let mut i: usize = 0;
    while i < tokens.len()
        invariant
            i <= tokens@.len(),
            tokens_view(out@) == reduced(tokens_view(tokens@.take(i as int))),
        decreases tokens@.len() - i,
    {
        let (t, p) = &tokens[i];
        proof {
            let pre = tokens@.take(i as int);
            assert(tokens@.take(i + 1) == pre.push(tokens@[i as int]));
            assert(tokens_view(pre.push(tokens@[i as int])) == tokens_view(pre).push(
                (t@, p@),
            )) by {
                lemma_tokens_view_push(pre, *t, *p);
            }
            reveal_with_fuel(Seq::<(SToken, (nat, nat))>::filter, 1);
            assert(tokens_view(pre).push((t@, p@)).drop_last() == tokens_view(pre));
        }
        match t {
            Token::Comment(..) | Token::Whitespace | Token::Empty => {},
            _ => {
                emit(&mut out, t.duplicate(), *p);
            },
        }
        i = i + 1;
    }
    proof {
        assert(tokens@.take(tokens@.len() as int) == tokens@);
    }
    out
}

} // verus!
