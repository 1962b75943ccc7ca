//! Parsing for conditions, used in if instructions

use vstd::prelude::*;

use crate::instruction::{parse_arg, spec_parse_arg};
use crate::lex::{SToken, TextPos, Token};
use crate::parse_error::{unexpected, ParseError, SParseError};
use crate::shared::{
    spec_game_side, spec_modloader_match, spec_plugin_loader_match, GameSide, ModloaderMatch,
    PluginLoaderMatch,
};
use crate::text::str_eq;
use crate::vars::{SValue, Value};

verus! {

/// Value for the OS condition
#[derive(Debug, Clone, Copy, PartialEq, Eq, Structural)]
pub enum OsCondition {
    Windows,
    Linux,
    Other,
}

/// The operating system that a condition argument names.
pub open spec fn spec_os_condition(s: Seq<char>) -> Option<OsCondition> {
    if s == "windows"@ {
        Some(OsCondition::Windows)
    } else if s == "linux"@ {
        Some(OsCondition::Linux)
    } else if s == "other"@ {
        Some(OsCondition::Other)
    } else {
        None
    }
}

impl OsCondition {
    pub fn parse_from_str(string: &str) -> (r: Option<OsCondition>)
        ensures
            r == spec_os_condition(string@),
    {
        proof {
            lemma_condition_literals();
        }
        if str_eq(string, "windows") {
            Some(OsCondition::Windows)
        } else if str_eq(string, "linux") {
            Some(OsCondition::Linux)
        } else if str_eq(string, "other") {
            Some(OsCondition::Other)
        } else {
            None
        }
    }
}

#[derive(Debug, PartialEq, Eq)]
pub enum ConditionKind {
    Not(Option<Box<ConditionKind>>),
    And(Box<ConditionKind>, Option<Box<ConditionKind>>),
    Or(Box<ConditionKind>, Option<Box<ConditionKind>>),
    Version(Value),
    Side(Option<GameSide>),
    Modloader(Option<ModloaderMatch>),
    PluginLoader(Option<PluginLoaderMatch>),
    Feature(Value),
    Value(Value, Value),
    Defined(Value),
    Os(Option<OsCondition>),
}

/// The mathematical value of a condition.
pub enum SCondition {
    Not(Option<Box<SCondition>>),
    And(Box<SCondition>, Option<Box<SCondition>>),
    Or(Box<SCondition>, Option<Box<SCondition>>),
    Version(SValue),
    Side(Option<GameSide>),
    Modloader(Option<ModloaderMatch>),
    PluginLoader(Option<PluginLoaderMatch>),
    Feature(SValue),
    Value(SValue, SValue),
    Defined(SValue),
    Os(Option<OsCondition>),
}

/// The mathematical value of a condition.
pub open spec fn cond_view(c: ConditionKind) -> SCondition
    decreases c,
{
    match c {
        ConditionKind::Not(x) => SCondition::Not(
            match x {
                Some(b) => Some(Box::new(cond_view(*b))),
                None => None,
            },
        ),
        ConditionKind::And(l, r) => SCondition::And(
            Box::new(cond_view(*l)),
            match r {
                Some(b) => Some(Box::new(cond_view(*b))),
                None => None,
            },
        ),
        ConditionKind::Or(l, r) => SCondition::Or(
            Box::new(cond_view(*l)),
            match r {
                Some(b) => Some(Box::new(cond_view(*b))),
                None => None,
            },
        ),
        ConditionKind::Version(v) => SCondition::Version(v@),
        ConditionKind::Side(s) => SCondition::Side(s),
        ConditionKind::Modloader(m) => SCondition::Modloader(m),
        ConditionKind::PluginLoader(p) => SCondition::PluginLoader(p),
        ConditionKind::Feature(v) => SCondition::Feature(v@),
        ConditionKind::Value(a, b) => SCondition::Value(a@, b@),
        ConditionKind::Defined(v) => SCondition::Defined(v@),
        ConditionKind::Os(o) => SCondition::Os(o),
    }
}

/// The mathematical value of an optional nested condition.
pub open spec fn opt_cond_view(c: Option<Box<ConditionKind>>) -> Option<Box<SCondition>> {
    match c {
        Some(b) => Some(Box::new(cond_view(*b))),
        None => None,
    }
}

impl View for ConditionKind {
    type V = SCondition;

    open spec fn view(&self) -> SCondition {
        cond_view(*self)
    }
}

/// The condition that a condition name starts.
pub open spec fn spec_condition_from_str(s: Seq<char>) -> Option<SCondition> {
    if s == "not"@ {
        Some(SCondition::Not(None))
    } else if s == "version"@ {
        Some(SCondition::Version(SValue::Empty))
    } else if s == "side"@ {
        Some(SCondition::Side(None))
    } else if s == "modloader"@ {
        Some(SCondition::Modloader(None))
    } else if s == "plugin_loader"@ {
        Some(SCondition::PluginLoader(None))
    } else if s == "feature"@ {
        Some(SCondition::Feature(SValue::Empty))
    } else if s == "value"@ {
        Some(SCondition::Value(SValue::Empty, SValue::Empty))
    } else if s == "defined"@ {
        Some(SCondition::Defined(SValue::Empty))
    } else if s == "os"@ {
        Some(SCondition::Os(None))
    } else {
        None
    }
}

/// Whether a condition has all of its arguments.
pub open spec fn spec_cond_finished(c: SCondition) -> bool
    decreases c,
{
    match c {
        SCondition::Not(x) => match x {
            Some(b) => spec_cond_finished(*b),
            None => false,
        },
        SCondition::And(l, r) => spec_cond_finished(*l) && match r {
            Some(b) => spec_cond_finished(*b),
            None => false,
        },
        SCondition::Or(l, r) => spec_cond_finished(*l) && match r {
            Some(b) => spec_cond_finished(*b),
            None => false,
        },
        SCondition::Version(v) => !(v is Empty),
        SCondition::Feature(v) => !(v is Empty),
        SCondition::Defined(v) => !(v is Empty),
        SCondition::Side(s) => s is Some,
        SCondition::Modloader(m) => m is Some,
        SCondition::PluginLoader(p) => p is Some,
        SCondition::Os(o) => o is Some,
        SCondition::Value(a, b) => !(a is Empty) && !(b is Empty),
    }
}

/// Whether a token is the identifier `and`.
pub open spec fn is_and(tok: SToken) -> bool {
    tok matches SToken::Ident(name) && name == "and"@
}

/// The result of a parse step on a slot that may hold a nested condition.
pub open spec fn spec_parse_nested(
    slot: Option<Box<SCondition>>,
    tok: SToken,
    pos: (nat, nat),
) -> Result<SCondition, SParseError>
    decreases slot, 0nat,
{
    match slot {
        Some(inner) => spec_cond_parse(*inner, tok, pos),
        None => match tok {
            SToken::Ident(name) => match spec_condition_from_str(name) {
                Some(n) => Ok(n),
                None => Err(SParseError::UnknownCondition(name, pos)),
            },
            _ => Err(SParseError::UnexpectedToken(tok, pos)),
        },
    }
}

/// A condition argument read from an identifier.
pub open spec fn spec_ident_arg<A>(
    tok: SToken,
    pos: (nat, nat),
    read: spec_fn(Seq<char>) -> Option<A>,
) -> Result<A, SParseError> {
    match tok {
        SToken::Ident(name) => match read(name) {
            Some(a) => Ok(a),
            None => Err(SParseError::UnknownConditionArgument(name, pos)),
        },
        _ => Err(SParseError::UnexpectedToken(tok, pos)),
    }
}

/// A value argument read from a token.
pub open spec fn spec_value_arg(tok: SToken, pos: (nat, nat)) -> Result<SValue, SParseError> {
    match spec_parse_arg(tok) {
        Some(v) => Ok(v),
        None => Err(SParseError::UnexpectedToken(tok, pos)),
    }
}

/// Adds arguments to a condition from a token.
pub open spec fn spec_cond_parse(c: SCondition, tok: SToken, pos: (nat, nat)) -> Result<
    SCondition,
    SParseError,
>
    decreases c, 1nat,
{
    if is_and(tok) && spec_cond_finished(c) {
        Ok(SCondition::And(Box::new(c), None))
    } else if !is_and(tok) && spec_cond_finished(c) {
        Err(SParseError::UnexpectedToken(tok, pos))
    } else {
        match c {
            SCondition::Not(x) => match spec_parse_nested(x, tok, pos) {
                Ok(n) => Ok(SCondition::Not(Some(Box::new(n)))),
                Err(e) => Err(e),
            },
            SCondition::And(l, x) => match spec_parse_nested(x, tok, pos) {
                Ok(n) => Ok(SCondition::And(l, Some(Box::new(n)))),
                Err(e) => Err(e),
            },
            SCondition::Or(l, x) => match spec_parse_nested(x, tok, pos) {
                Ok(n) => Ok(SCondition::Or(l, Some(Box::new(n)))),
                Err(e) => Err(e),
            },
            SCondition::Version(_) => match spec_value_arg(tok, pos) {
                Ok(v) => Ok(SCondition::Version(v)),
                Err(e) => Err(e),
            },
            SCondition::Feature(_) => match spec_value_arg(tok, pos) {
                Ok(v) => Ok(SCondition::Feature(v)),
                Err(e) => Err(e),
            },
            SCondition::Defined(_) => match spec_value_arg(tok, pos) {
                Ok(v) => Ok(SCondition::Defined(v)),
                Err(e) => Err(e),
            },
            SCondition::Side(_) => match spec_ident_arg(tok, pos, |s: Seq<char>| spec_game_side(s)) {
                Ok(a) => Ok(SCondition::Side(Some(a))),
                Err(e) => Err(e),
            },
            SCondition::Modloader(_) => match spec_ident_arg(
                tok,
                pos,
                |s: Seq<char>| spec_modloader_match(s),
            ) {
                Ok(a) => Ok(SCondition::Modloader(Some(a))),
                Err(e) => Err(e),
            },
            SCondition::PluginLoader(_) => match spec_ident_arg(
                tok,
                pos,
                |s: Seq<char>| spec_plugin_loader_match(s),
            ) {
                Ok(a) => Ok(SCondition::PluginLoader(Some(a))),
                Err(e) => Err(e),
            },
            SCondition::Os(_) => match spec_ident_arg(tok, pos, |s: Seq<char>| spec_os_condition(s)) {
                Ok(a) => Ok(SCondition::Os(Some(a))),
                Err(e) => Err(e),
            },
            SCondition::Value(a, b) => match spec_value_arg(tok, pos) {
                Ok(v) => if a is Empty {
                    Ok(SCondition::Value(v, b))
                } else {
                    Ok(SCondition::Value(a, v))
                },
                Err(e) => Err(e),
            },
        }
    }
}

/// The result of a parse step, compared with its mathematical value.
pub open spec fn cond_result_matches(
    r: Result<ConditionKind, ParseError>,
    s: Result<SCondition, SParseError>,
) -> bool {
    match (r, s) {
        (Ok(a), Ok(b)) => a@ == b,
        (Err(a), Err(b)) => a@ == b,
        _ => false,
    }
}

/// The condition names, as literals.
proof fn lemma_condition_literals()
    ensures
        "not"@ =~= seq!['n', 'o', 't'],
        "version"@ =~= seq!['v', 'e', 'r', 's', 'i', 'o', 'n'],
        "side"@ =~= seq!['s', 'i', 'd', 'e'],
        "modloader"@ =~= seq!['m', 'o', 'd', 'l', 'o', 'a', 'd', 'e', 'r'],
        "plugin_loader"@ =~= seq!['p', 'l', 'u', 'g', 'i', 'n', '_', 'l', 'o', 'a', 'd', 'e', 'r'],
        "feature"@ =~= seq!['f', 'e', 'a', 't', 'u', 'r', 'e'],
        "value"@ =~= seq!['v', 'a', 'l', 'u', 'e'],
        "defined"@ =~= seq!['d', 'e', 'f', 'i', 'n', 'e', 'd'],
        "os"@ =~= seq!['o', 's'],
        "windows"@ =~= seq!['w', 'i', 'n', 'd', 'o', 'w', 's'],
        "linux"@ =~= seq!['l', 'i', 'n', 'u', 'x'],
        "other"@ =~= seq!['o', 't', 'h', 'e', 'r'],
{
    reveal_strlit("not");
    reveal_strlit("version");
    reveal_strlit("side");
    reveal_strlit("modloader");
    reveal_strlit("plugin_loader");
    reveal_strlit("feature");
    reveal_strlit("value");
    reveal_strlit("defined");
    reveal_strlit("os");
    reveal_strlit("windows");
    reveal_strlit("linux");
    reveal_strlit("other");
}

impl ConditionKind {
    pub fn from_str(string: &str) -> (r: Option<ConditionKind>)
        ensures
            match spec_condition_from_str(string@) {
                Some(c) => r matches Some(k) && k@ == c,
                None => r is None,
            },
    {
        proof {
            lemma_condition_literals();
        }
        if str_eq(string, "not") {
            Some(ConditionKind::Not(None))
        } else if str_eq(string, "version") {
            Some(ConditionKind::Version(Value::Empty))
        } else if str_eq(string, "side") {
            Some(ConditionKind::Side(None))
        } else if str_eq(string, "modloader") {
            Some(ConditionKind::Modloader(None))
        } else if str_eq(string, "plugin_loader") {
            Some(ConditionKind::PluginLoader(None))
        } else if str_eq(string, "feature") {
            Some(ConditionKind::Feature(Value::Empty))
        } else if str_eq(string, "value") {
            Some(ConditionKind::Value(Value::Empty, Value::Empty))
        } else if str_eq(string, "defined") {
            Some(ConditionKind::Defined(Value::Empty))
        } else if str_eq(string, "os") {
            Some(ConditionKind::Os(None))
        } else {
            None
        }
    }

    /// A copy of this condition.
    pub fn duplicate(&self) -> (r: ConditionKind)
        ensures
            r@ == self@,
        decreases self,
    {
        match self {
            ConditionKind::Not(x) => ConditionKind::Not(Self::duplicate_slot(x)),
            ConditionKind::And(l, x) => ConditionKind::And(
                Box::new(l.duplicate()),
                Self::duplicate_slot(x),
            ),
            ConditionKind::Or(l, x) => ConditionKind::Or(
                Box::new(l.duplicate()),
                Self::duplicate_slot(x),
            ),
            ConditionKind::Version(v) => ConditionKind::Version(v.duplicate()),
            ConditionKind::Side(s) => ConditionKind::Side(*s),
            ConditionKind::Modloader(m) => ConditionKind::Modloader(*m),
            ConditionKind::PluginLoader(p) => ConditionKind::PluginLoader(*p),
            ConditionKind::Feature(v) => ConditionKind::Feature(v.duplicate()),
            ConditionKind::Value(a, b) => ConditionKind::Value(a.duplicate(), b.duplicate()),
            ConditionKind::Defined(v) => ConditionKind::Defined(v.duplicate()),
            ConditionKind::Os(o) => ConditionKind::Os(*o),
        }
    }

    fn duplicate_slot(x: &Option<Box<ConditionKind>>) -> (r: Option<Box<ConditionKind>>)
        ensures
            opt_cond_view(r) == opt_cond_view(*x),
        decreases x,
    {
        match x {
            Some(b) => Some(Box::new(b.duplicate())),
            None => None,
        }
    }

    /// Checks whether this condition is finished parsing
    pub fn is_finished_parsing(&self) -> (r: bool)
        ensures
            r == spec_cond_finished(self@),
        decreases self,
    {
        match self {
            ConditionKind::Not(x) => match x {
                Some(b) => {
                    assert(self@ == SCondition::Not(Some(Box::new(cond_view(**b)))));
                    b.is_finished_parsing()
                },
                None => false,
            },
            ConditionKind::And(l, x) => {
                let left = l.is_finished_parsing();
                left && match x {
                    Some(b) => {
                        assert(self@ == SCondition::And(Box::new(cond_view(**l)), Some(Box::new(cond_view(**b)))));
                        b.is_finished_parsing()
                    },
                    None => false,
                }
            },
            ConditionKind::Or(l, x) => {
                let left = l.is_finished_parsing();
                left && match x {
                    Some(b) => {
                        assert(self@ == SCondition::Or(Box::new(cond_view(**l)), Some(Box::new(cond_view(**b)))));
                        b.is_finished_parsing()
                    },
                    None => false,
                }
            },
            ConditionKind::Version(v) | ConditionKind::Feature(v) | ConditionKind::Defined(v) => {
                v.is_some()
            },
            ConditionKind::Side(s) => s.is_some(),
            ConditionKind::Modloader(m) => m.is_some(),
            ConditionKind::PluginLoader(p) => p.is_some(),
            ConditionKind::Os(o) => o.is_some(),
            ConditionKind::Value(a, b) => a.is_some() && b.is_some(),
        }
    }

    fn parse_nested(x: &Option<Box<ConditionKind>>, tok: &Token, pos: TextPos) -> (r: Result<
        ConditionKind,
        ParseError,
    >)
        ensures
            cond_result_matches(r, spec_parse_nested(opt_cond_view(*x), tok@, pos@)),
        decreases x, 0nat,
    {
        match x {
            Some(inner) => inner.parsed(tok, pos),
            None => match tok {
                Token::Ident(name) => match Self::from_str(name.as_str()) {
                    Some(n) => Ok(n),
                    None => Err(ParseError::UnknownCondition(name.clone(), pos)),
                },
                _ => Err(unexpected(tok, pos)),
            },
        }
    }

    /// The condition with the arguments from a token added
    pub fn parsed(&self, tok: &Token, pos: TextPos) -> (r: Result<ConditionKind, ParseError>)
        ensures
            cond_result_matches(r, spec_cond_parse(self@, tok@, pos@)),
        decreases self, 1nat,
    {
        let finished = self.is_finished_parsing();
        let and = match tok {
            Token::Ident(name) => str_eq(name.as_str(), "and"),
            _ => false,
        };
        if and && finished {
            return Ok(ConditionKind::And(Box::new(self.duplicate()), None));
        }
        if !and && finished {
            return Err(unexpected(tok, pos));
        }
        match self {
            ConditionKind::Not(x) => match Self::parse_nested(x, tok, pos) {
                Ok(n) => Ok(ConditionKind::Not(Some(Box::new(n)))),
                Err(e) => Err(e),
            },
            ConditionKind::And(l, x) => match Self::parse_nested(x, tok, pos) {
                Ok(n) => Ok(ConditionKind::And(Box::new(l.duplicate()), Some(Box::new(n)))),
                Err(e) => Err(e),
            },
            ConditionKind::Or(l, x) => match Self::parse_nested(x, tok, pos) {
                Ok(n) => Ok(ConditionKind::Or(Box::new(l.duplicate()), Some(Box::new(n)))),
                Err(e) => Err(e),
            },
            ConditionKind::Version(_) => match parse_arg(tok, pos) {
                Ok(v) => Ok(ConditionKind::Version(v)),
                Err(e) => Err(e),
            },
            ConditionKind::Feature(_) => match parse_arg(tok, pos) {
                Ok(v) => Ok(ConditionKind::Feature(v)),
                Err(e) => Err(e),
            },
            ConditionKind::Defined(_) => match parse_arg(tok, pos) {
                Ok(v) => Ok(ConditionKind::Defined(v)),
                Err(e) => Err(e),
            },
            ConditionKind::Side(_) => match tok {
                Token::Ident(name) => match GameSide::parse_from_str(name.as_str()) {
                    Some(k) => Ok(ConditionKind::Side(Some(k))),
                    None => Err(ParseError::UnknownConditionArgument(name.clone(), pos)),
                },
                _ => Err(unexpected(tok, pos)),
            },
            ConditionKind::Modloader(_) => match tok {
                Token::Ident(name) => match ModloaderMatch::parse_from_str(name.as_str()) {
                    Some(k) => Ok(ConditionKind::Modloader(Some(k))),
                    None => Err(ParseError::UnknownConditionArgument(name.clone(), pos)),
                },
                _ => Err(unexpected(tok, pos)),
            },
            ConditionKind::PluginLoader(_) => match tok {
                Token::Ident(name) => match PluginLoaderMatch::parse_from_str(name.as_str()) {
                    Some(k) => Ok(ConditionKind::PluginLoader(Some(k))),
                    None => Err(ParseError::UnknownConditionArgument(name.clone(), pos)),
                },
                _ => Err(unexpected(tok, pos)),
            },
            ConditionKind::Os(_) => match tok {
                Token::Ident(name) => match OsCondition::parse_from_str(name.as_str()) {
                    Some(k) => Ok(ConditionKind::Os(Some(k))),
                    None => Err(ParseError::UnknownConditionArgument(name.clone(), pos)),
                },
                _ => Err(unexpected(tok, pos)),
            },
            ConditionKind::Value(a, b) => match parse_arg(tok, pos) {
                Ok(v) => {
                    if !a.is_some() {
                        Ok(ConditionKind::Value(v, b.duplicate()))
                    } else {
                        Ok(ConditionKind::Value(a.duplicate(), v))
                    }
                },
                Err(e) => Err(e),
            },
        }
    }

    /// Add arguments to the condition from tokens
    pub fn parse(&mut self, tok: &Token, pos: TextPos) -> (r: Result<(), ParseError>)
        ensures
            match spec_cond_parse(old(self)@, tok@, pos@) {
                Ok(n) => r is Ok && final(self)@ == n,
                Err(e) => r matches Err(err) && err@ == e && final(self)@ == old(self)@,
            },
    {
        match self.parsed(tok, pos) {
            Ok(n) => {
                *self = n;
                Ok(())
            },
            Err(e) => Err(e),
        }
    }
}

/// A condition in an if instruction
#[derive(Debug)]
pub struct Condition {
    pub kind: ConditionKind,
}

impl Condition {
    pub fn new(kind: ConditionKind) -> (r: Condition)
        ensures
            r.kind == kind,
    {
        Condition { kind }
    }

    pub fn parse(&mut self, tok: &Token, pos: TextPos) -> (r: Result<(), ParseError>)
        ensures
            match spec_cond_parse(old(self).kind@, tok@, pos@) {
                Ok(n) => r is Ok && final(self).kind@ == n,
                Err(e) => r matches Err(err) && err@ == e && final(self).kind@ == old(self).kind@,
            },
    {
        self.kind.parse(tok, pos)
    }

    /// A copy of this condition.
    pub fn duplicate(&self) -> (r: Condition)
        ensures
            r.kind@ == self.kind@,
    {
        Condition { kind: self.kind.duplicate() }
    }
}

} // verus!
