//! Parsing for most instructions, with the exception of a few complex ones

use vstd::prelude::*;

use crate::conditions::{spec_value_arg, Condition, SCondition};
use crate::lex::{SToken, TextPos, Token};
use crate::parse::BlockId;
use crate::parse_error::{spec_fail_reason, unexpected, FailReason, ParseError, SParseError};
use crate::require::{groups_view, Package, SPackage};
use crate::routine::{is_reserved, spec_is_reserved};
use crate::shared::{
    spec_game_side, spec_modloader_match, spec_plugin_loader_match, AddonKind, GameSide, Later,
    ModloaderMatch, PluginLoaderMatch,
};
use crate::text::{i64_to_decimal, int_decimal, str_eq};
use crate::vars::{SValue, Value};

verus! {

/// A command / statement run in a package script
#[derive(Debug)]
pub struct Instruction {
    /// What type of instruction this is
    pub kind: InstrKind,
}

/// The hashes of an addon file
#[derive(Debug)]
pub struct AddonHashes {
    pub sha256: Value,
    pub sha512: Value,
}

/// A non-nested else / else if block connected to an if
#[derive(Debug)]
pub struct ElseBlock {
    /// The block to run if this else succeeds
    pub block: BlockId,
    /// An additional condition that might need to be satisfied, used for else if.
    pub condition: Option<Condition>,
}

/// The mathematical value of an else block.
pub struct SElseBlock {
    pub block: BlockId,
    pub condition: Option<SCondition>,
}

/// The mathematical value of a chain of else blocks.
pub open spec fn else_blocks_view(v: Seq<ElseBlock>) -> Seq<SElseBlock> {
    v.map_values(
        |b: ElseBlock|
            SElseBlock {
                block: b.block,
                condition: match b.condition {
                    Some(c) => Some(c.kind@),
                    None => None,
                },
            },
    )
}

/// The mathematical value of a string filled in later.
pub open spec fn later_view(l: Later<String>) -> Later<Seq<char>> {
    match l {
        Later::Empty => Later::Empty,
        Later::Full(s) => Later::Full(s@),
    }
}

/// The mathematical value of a list of values.
pub open spec fn values_view(v: Seq<Value>) -> Seq<SValue> {
    v.map_values(|x: Value| x@)
}

/// Type of an instruction
#[derive(Debug)]
pub enum InstrKind {
    If {
        /// The condition to check
        condition: Condition,
        /// The block to run if the condition succeeds
        if_block: BlockId,
        /// The chain of else blocks to run if the initial condition fails
        else_blocks: Vec<ElseBlock>,
    },
    Name(Later<String>),
    Description(Later<String>),
    LongDescription(Later<String>),
    Authors(Vec<String>),
    PackageMaintainers(Vec<String>),
    Website(Later<String>),
    SupportLink(Later<String>),
    Documentation(Later<String>),
    Source(Later<String>),
    Issues(Later<String>),
    Community(Later<String>),
    Icon(Later<String>),
    Banner(Later<String>),
    Gallery(Vec<String>),
    License(Later<String>),
    Keywords(Vec<String>),
    Categories(Vec<String>),
    Features(Vec<String>),
    DefaultFeatures(Vec<String>),
    ModrinthID(Later<String>),
    CurseForgeID(Later<String>),
    SupportedModloaders(Vec<ModloaderMatch>),
    SupportedPluginLoaders(Vec<PluginLoaderMatch>),
    SupportedSides(Vec<GameSide>),
    Tags(Vec<String>),
    Addon {
        /// The ID of the addon
        id: Value,
        /// The filename of the addon
        file_name: Value,
        /// What kind of addon this is
        kind: Option<AddonKind>,
        /// The URL to the addon file; may not exist
        url: Value,
        /// The path to the addon file; may not exist
        path: Value,
        /// The version of the addon
        version: Value,
        /// The addon's hashes
        hashes: AddonHashes,
    },
    SetVar(Later<String>, Value),
    Require(Vec<Vec<Package>>),
    Refuse(Value),
    Recommend(bool, Value),
    Bundle(Value),
    Compat(Value, Value),
    Extend(Value),
    Finish(),
    Fail(Option<FailReason>),
    Notice(Value),
    Cmd(Vec<Value>),
    Call(Later<String>),
}

/// The mathematical value of an instruction kind.
pub enum SInstrKind {
    If { condition: SCondition, if_block: BlockId, else_blocks: Seq<SElseBlock> },
    Name(Later<Seq<char>>),
    Description(Later<Seq<char>>),
    LongDescription(Later<Seq<char>>),
    Authors(Seq<Seq<char>>),
    PackageMaintainers(Seq<Seq<char>>),
    Website(Later<Seq<char>>),
    SupportLink(Later<Seq<char>>),
    Documentation(Later<Seq<char>>),
    Source(Later<Seq<char>>),
    Issues(Later<Seq<char>>),
    Community(Later<Seq<char>>),
    Icon(Later<Seq<char>>),
    Banner(Later<Seq<char>>),
    Gallery(Seq<Seq<char>>),
    License(Later<Seq<char>>),
    Keywords(Seq<Seq<char>>),
    Categories(Seq<Seq<char>>),
    Features(Seq<Seq<char>>),
    DefaultFeatures(Seq<Seq<char>>),
    ModrinthID(Later<Seq<char>>),
    CurseForgeID(Later<Seq<char>>),
    SupportedModloaders(Seq<ModloaderMatch>),
    SupportedPluginLoaders(Seq<PluginLoaderMatch>),
    SupportedSides(Seq<GameSide>),
    Tags(Seq<Seq<char>>),
    Addon {
        id: SValue,
        file_name: SValue,
        kind: Option<AddonKind>,
        url: SValue,
        path: SValue,
        version: SValue,
        sha256: SValue,
        sha512: SValue,
    },
    SetVar(Later<Seq<char>>, SValue),
    Require(Seq<Seq<SPackage>>),
    Refuse(SValue),
    Recommend(bool, SValue),
    Bundle(SValue),
    Compat(SValue, SValue),
    Extend(SValue),
    Finish,
    Fail(Option<FailReason>),
    Notice(SValue),
    Cmd(Seq<SValue>),
    Call(Later<Seq<char>>),
}

impl View for InstrKind {
    type V = SInstrKind;

    open spec fn view(&self) -> SInstrKind {
        match self {
            InstrKind::If { condition, if_block, else_blocks } => SInstrKind::If {
                condition: condition.kind@,
                if_block: *if_block,
                else_blocks: else_blocks_view(else_blocks@),
            },
            InstrKind::Name(t) => SInstrKind::Name(later_view(*t)),
            InstrKind::Description(t) => SInstrKind::Description(later_view(*t)),
            InstrKind::LongDescription(t) => SInstrKind::LongDescription(later_view(*t)),
            InstrKind::Authors(l) => SInstrKind::Authors(l.deep_view()),
            InstrKind::PackageMaintainers(l) => SInstrKind::PackageMaintainers(l.deep_view()),
            InstrKind::Website(t) => SInstrKind::Website(later_view(*t)),
            InstrKind::SupportLink(t) => SInstrKind::SupportLink(later_view(*t)),
            InstrKind::Documentation(t) => SInstrKind::Documentation(later_view(*t)),
            InstrKind::Source(t) => SInstrKind::Source(later_view(*t)),
            InstrKind::Issues(t) => SInstrKind::Issues(later_view(*t)),
            InstrKind::Community(t) => SInstrKind::Community(later_view(*t)),
            InstrKind::Icon(t) => SInstrKind::Icon(later_view(*t)),
            InstrKind::Banner(t) => SInstrKind::Banner(later_view(*t)),
            InstrKind::Gallery(l) => SInstrKind::Gallery(l.deep_view()),
            InstrKind::License(t) => SInstrKind::License(later_view(*t)),
            InstrKind::Keywords(l) => SInstrKind::Keywords(l.deep_view()),
            InstrKind::Categories(l) => SInstrKind::Categories(l.deep_view()),
            InstrKind::Features(l) => SInstrKind::Features(l.deep_view()),
            InstrKind::DefaultFeatures(l) => SInstrKind::DefaultFeatures(l.deep_view()),
            InstrKind::ModrinthID(t) => SInstrKind::ModrinthID(later_view(*t)),
            InstrKind::CurseForgeID(t) => SInstrKind::CurseForgeID(later_view(*t)),
            InstrKind::SupportedModloaders(l) => SInstrKind::SupportedModloaders(l@),
            InstrKind::SupportedPluginLoaders(l) => SInstrKind::SupportedPluginLoaders(l@),
            InstrKind::SupportedSides(l) => SInstrKind::SupportedSides(l@),
            InstrKind::Tags(l) => SInstrKind::Tags(l.deep_view()),
            InstrKind::Addon { id, file_name, kind, url, path, version, hashes } => SInstrKind::Addon {
                id: id@,
                file_name: file_name@,
                kind: *kind,
                url: url@,
                path: path@,
                version: version@,
                sha256: hashes.sha256@,
                sha512: hashes.sha512@,
            },
            InstrKind::SetVar(t, v) => SInstrKind::SetVar(later_view(*t), v@),
            InstrKind::Require(g) => SInstrKind::Require(groups_view(g@)),
            InstrKind::Refuse(v) => SInstrKind::Refuse(v@),
            InstrKind::Recommend(b, v) => SInstrKind::Recommend(*b, v@),
            InstrKind::Bundle(v) => SInstrKind::Bundle(v@),
            InstrKind::Compat(a, b) => SInstrKind::Compat(a@, b@),
            InstrKind::Extend(v) => SInstrKind::Extend(v@),
            InstrKind::Finish() => SInstrKind::Finish,
            InstrKind::Fail(r) => SInstrKind::Fail(*r),
            InstrKind::Notice(v) => SInstrKind::Notice(v@),
            InstrKind::Cmd(l) => SInstrKind::Cmd(values_view(l@)),
            InstrKind::Call(t) => SInstrKind::Call(later_view(*t)),
        }
    }
}

/// The instruction that an instruction name starts.
pub open spec fn spec_instr_from_str(s: Seq<char>) -> Option<SInstrKind> {
    if s == "name"@ {
        Some(SInstrKind::Name(Later::Empty))
    } else if s == "description"@ {
        Some(SInstrKind::Description(Later::Empty))
    } else if s == "long_description"@ {
        Some(SInstrKind::LongDescription(Later::Empty))
    } else if s == "authors"@ {
        Some(SInstrKind::Authors(Seq::empty()))
    } else if s == "package_maintainers"@ {
        Some(SInstrKind::PackageMaintainers(Seq::empty()))
    } else if s == "website"@ {
        Some(SInstrKind::Website(Later::Empty))
    } else if s == "support_link"@ {
        Some(SInstrKind::SupportLink(Later::Empty))
    } else if s == "documentation"@ {
        Some(SInstrKind::Documentation(Later::Empty))
    } else if s == "source"@ {
        Some(SInstrKind::Source(Later::Empty))
    } else if s == "issues"@ {
        Some(SInstrKind::Issues(Later::Empty))
    } else if s == "community"@ {
        Some(SInstrKind::Community(Later::Empty))
    } else if s == "icon"@ {
        Some(SInstrKind::Icon(Later::Empty))
    } else if s == "banner"@ {
        Some(SInstrKind::Banner(Later::Empty))
    } else if s == "license"@ {
        Some(SInstrKind::License(Later::Empty))
    } else if s == "features"@ {
        Some(SInstrKind::Features(Seq::empty()))
    } else if s == "default_features"@ {
        Some(SInstrKind::DefaultFeatures(Seq::empty()))
    } else if s == "modrinth_id"@ {
        Some(SInstrKind::ModrinthID(Later::Empty))
    } else if s == "curseforge_id"@ {
        Some(SInstrKind::CurseForgeID(Later::Empty))
    } else if s == "supported_modloaders"@ {
        Some(SInstrKind::SupportedModloaders(Seq::empty()))
    } else if s == "supported_plugin_loaders"@ {
        Some(SInstrKind::SupportedPluginLoaders(Seq::empty()))
    } else if s == "supported_sides"@ {
        Some(SInstrKind::SupportedSides(Seq::empty()))
    } else if s == "set"@ {
        Some(SInstrKind::SetVar(Later::Empty, SValue::Empty))
    } else if s == "finish"@ {
        Some(SInstrKind::Finish)
    } else if s == "fail"@ {
        Some(SInstrKind::Fail(None))
    } else if s == "refuse"@ {
        Some(SInstrKind::Refuse(SValue::Empty))
    } else if s == "recommend"@ {
        Some(SInstrKind::Recommend(false, SValue::Empty))
    } else if s == "bundle"@ {
        Some(SInstrKind::Bundle(SValue::Empty))
    } else if s == "compat"@ {
        Some(SInstrKind::Compat(SValue::Empty, SValue::Empty))
    } else if s == "extend"@ {
        Some(SInstrKind::Extend(SValue::Empty))
    } else if s == "notice"@ {
        Some(SInstrKind::Notice(SValue::Empty))
    } else if s == "call"@ {
        Some(SInstrKind::Call(Later::Empty))
    } else {
        None
    }
}

/// The keyword of an instruction kind.
pub open spec fn spec_instr_name(k: SInstrKind) -> Seq<char> {
    match k {
        SInstrKind::If { .. } => "if"@,
        SInstrKind::Name(..) => "name"@,
        SInstrKind::Description(..) => "description"@,
        SInstrKind::LongDescription(..) => "long_description"@,
        SInstrKind::Authors(..) => "authors"@,
        SInstrKind::PackageMaintainers(..) => "package_maintainers"@,
        SInstrKind::Website(..) => "website"@,
        SInstrKind::SupportLink(..) => "support_link"@,
        SInstrKind::Documentation(..) => "documentation"@,
        SInstrKind::Source(..) => "source"@,
        SInstrKind::Issues(..) => "issues"@,
        SInstrKind::Community(..) => "community"@,
        SInstrKind::Icon(..) => "icon"@,
        SInstrKind::Banner(..) => "banner"@,
        SInstrKind::Gallery(..) => "gallery"@,
        SInstrKind::License(..) => "license"@,
        SInstrKind::Keywords(..) => "keywords"@,
        SInstrKind::Categories(..) => "categories"@,
        SInstrKind::Features(..) => "features"@,
        SInstrKind::DefaultFeatures(..) => "default_features"@,
        SInstrKind::ModrinthID(..) => "modrinth_id"@,
        SInstrKind::CurseForgeID(..) => "curseforge_id"@,
        SInstrKind::SupportedModloaders(..) => "supported_modloaders"@,
        SInstrKind::SupportedPluginLoaders(..) => "supported_plugin_loaders"@,
        SInstrKind::SupportedSides(..) => "supported_sides"@,
        SInstrKind::Tags(..) => "tags"@,
        SInstrKind::Addon { .. } => "addon"@,
        SInstrKind::SetVar(..) => "set"@,
        SInstrKind::Require(..) => "require"@,
        SInstrKind::Refuse(..) => "refuse"@,
        SInstrKind::Recommend(..) => "recommend"@,
        SInstrKind::Bundle(..) => "bundle"@,
        SInstrKind::Compat(..) => "compat"@,
        SInstrKind::Extend(..) => "extend"@,
        SInstrKind::Finish => "finish"@,
        SInstrKind::Fail(..) => "fail"@,
        SInstrKind::Notice(..) => "notice"@,
        SInstrKind::Cmd(..) => "cmd"@,
        SInstrKind::Call(..) => "call"@,
    }
}

/// The keyword of the instruction kind that an instruction name starts is that name.
pub proof fn law_instr_name_inverts_from_str(s: Seq<char>)
    ensures
        spec_instr_from_str(s) matches Some(k) ==> spec_instr_name(k) == s,
{
}

/// Whether an instruction is finished parsing by its simple rules; the if, addon and
/// require instructions have parse modes of their own and no such rule.
pub open spec fn spec_has_simple_parse(k: SInstrKind) -> bool {
    !(k is If || k is Addon || k is Require)
}

/// Whether an instruction has all of its arguments.
pub open spec fn spec_instr_finished(k: SInstrKind) -> bool {
    match k {
        SInstrKind::Name(t)
            | SInstrKind::Description(t)
            | SInstrKind::LongDescription(t)
            | SInstrKind::Website(t)
            | SInstrKind::SupportLink(t)
            | SInstrKind::Documentation(t)
            | SInstrKind::Source(t)
            | SInstrKind::Issues(t)
            | SInstrKind::Community(t)
            | SInstrKind::Icon(t)
            | SInstrKind::Banner(t)
            | SInstrKind::License(t)
            | SInstrKind::ModrinthID(t)
            | SInstrKind::CurseForgeID(t)
            | SInstrKind::Call(t) => t is Full,
        SInstrKind::Authors(l)
            | SInstrKind::PackageMaintainers(l)
            | SInstrKind::Gallery(l)
            | SInstrKind::Keywords(l)
            | SInstrKind::Categories(l)
            | SInstrKind::Features(l)
            | SInstrKind::DefaultFeatures(l)
            | SInstrKind::Tags(l) => l.len() > 0,
        SInstrKind::Refuse(v)
            | SInstrKind::Bundle(v)
            | SInstrKind::Extend(v)
            | SInstrKind::Notice(v) => !(v is Empty),
        SInstrKind::Recommend(_, v) => !(v is Empty),
        SInstrKind::SupportedModloaders(l) => l.len() > 0,
        SInstrKind::SupportedPluginLoaders(l) => l.len() > 0,
        SInstrKind::SupportedSides(l) => l.len() > 0,
        SInstrKind::Compat(a, b) => !(a is Empty) && !(b is Empty),
        SInstrKind::SetVar(t, v) => t is Full && !(v is Empty),
        SInstrKind::Cmd(l) => l.len() > 0,
        SInstrKind::Fail(_) | SInstrKind::Finish => true,
        SInstrKind::If { .. } | SInstrKind::Addon { .. } | SInstrKind::Require(..) => false,
    }
}

/// A string argument for an instruction that takes one string, once.
pub open spec fn spec_later_string_step(t: Later<Seq<char>>, tok: SToken, pos: (nat, nat)) -> Result<
    Later<Seq<char>>,
    SParseError,
> {
    if t is Empty {
        match tok {
            SToken::Str(s) => Ok(Later::Full(s)),
            _ => Err(SParseError::UnexpectedToken(tok, pos)),
        }
    } else {
        Err(SParseError::UnexpectedToken(tok, pos))
    }
}

/// A value argument for an instruction that takes one value, once.
pub open spec fn spec_value_slot_step(v: SValue, tok: SToken, pos: (nat, nat)) -> Result<
    SValue,
    SParseError,
> {
    if v is Empty {
        spec_value_arg(tok, pos)
    } else {
        Err(SParseError::UnexpectedToken(tok, pos))
    }
}

/// A list argument read from an identifier.
pub open spec fn spec_ident_list_step<A>(
    l: Seq<A>,
    tok: SToken,
    pos: (nat, nat),
    read: spec_fn(Seq<char>) -> Option<A>,
    invalid: SParseError,
) -> Result<Seq<A>, SParseError> {
    match tok {
        SToken::Ident(name) => match read(name) {
            Some(a) => Ok(l.push(a)),
            None => Err(invalid),
        },
        _ => Err(SParseError::UnexpectedToken(tok, pos)),
    }
}

/// One token given to an instruction: the new instruction and whether it is finished,
/// or the error. On an error the instruction stays as it was.
pub open spec fn spec_instr_step(k: SInstrKind, tok: SToken, pos: (nat, nat)) -> Result<
    (SInstrKind, bool),
    SParseError,
> {
    if tok is Semicolon {
        if !spec_instr_finished(k) {
            Err(SParseError::IncompleteInstruction(pos))
        } else {
            Ok((k, true))
        }
    } else {
        match k {
            SInstrKind::Name(t) => match spec_later_string_step(t, tok, pos) {
                Ok(t) => Ok((SInstrKind::Name(t), false)),
                Err(e) => Err(e),
            },
            SInstrKind::Description(t) => match spec_later_string_step(t, tok, pos) {
                Ok(t) => Ok((SInstrKind::Description(t), false)),
                Err(e) => Err(e),
            },
            SInstrKind::LongDescription(t) => match spec_later_string_step(t, tok, pos) {
                Ok(t) => Ok((SInstrKind::LongDescription(t), false)),
                Err(e) => Err(e),
            },
            SInstrKind::Website(t) => match spec_later_string_step(t, tok, pos) {
                Ok(t) => Ok((SInstrKind::Website(t), false)),
                Err(e) => Err(e),
            },
            SInstrKind::SupportLink(t) => match spec_later_string_step(t, tok, pos) {
                Ok(t) => Ok((SInstrKind::SupportLink(t), false)),
                Err(e) => Err(e),
            },
            SInstrKind::Documentation(t) => match spec_later_string_step(t, tok, pos) {
                Ok(t) => Ok((SInstrKind::Documentation(t), false)),
                Err(e) => Err(e),
            },
            SInstrKind::Source(t) => match spec_later_string_step(t, tok, pos) {
                Ok(t) => Ok((SInstrKind::Source(t), false)),
                Err(e) => Err(e),
            },
            SInstrKind::Issues(t) => match spec_later_string_step(t, tok, pos) {
                Ok(t) => Ok((SInstrKind::Issues(t), false)),
                Err(e) => Err(e),
            },
            SInstrKind::Community(t) => match spec_later_string_step(t, tok, pos) {
                Ok(t) => Ok((SInstrKind::Community(t), false)),
                Err(e) => Err(e),
            },
            SInstrKind::Icon(t) => match spec_later_string_step(t, tok, pos) {
                Ok(t) => Ok((SInstrKind::Icon(t), false)),
                Err(e) => Err(e),
            },
            SInstrKind::Banner(t) => match spec_later_string_step(t, tok, pos) {
                Ok(t) => Ok((SInstrKind::Banner(t), false)),
                Err(e) => Err(e),
            },
            SInstrKind::License(t) => match spec_later_string_step(t, tok, pos) {
                Ok(t) => Ok((SInstrKind::License(t), false)),
                Err(e) => Err(e),
            },
            SInstrKind::ModrinthID(t) => match spec_later_string_step(t, tok, pos) {
                Ok(t) => Ok((SInstrKind::ModrinthID(t), false)),
                Err(e) => Err(e),
            },
            SInstrKind::CurseForgeID(t) => match spec_later_string_step(t, tok, pos) {
                Ok(t) => Ok((SInstrKind::CurseForgeID(t), false)),
                Err(e) => Err(e),
            },
            SInstrKind::Refuse(v) => match spec_value_slot_step(v, tok, pos) {
                Ok(v) => Ok((SInstrKind::Refuse(v), false)),
                Err(e) => Err(e),
            },
            SInstrKind::Bundle(v) => match spec_value_slot_step(v, tok, pos) {
                Ok(v) => Ok((SInstrKind::Bundle(v), false)),
                Err(e) => Err(e),
            },
            SInstrKind::Extend(v) => match spec_value_slot_step(v, tok, pos) {
                Ok(v) => Ok((SInstrKind::Extend(v), false)),
                Err(e) => Err(e),
            },
            SInstrKind::Notice(v) => match spec_value_slot_step(v, tok, pos) {
                Ok(v) => Ok((SInstrKind::Notice(v), false)),
                Err(e) => Err(e),
            },
            SInstrKind::Authors(l) => match tok {
                SToken::Str(s) => Ok((SInstrKind::Authors(l.push(s)), false)),
                _ => Err(SParseError::UnexpectedToken(tok, pos)),
            },
            SInstrKind::PackageMaintainers(l) => match tok {
                SToken::Str(s) => Ok((SInstrKind::PackageMaintainers(l.push(s)), false)),
                _ => Err(SParseError::UnexpectedToken(tok, pos)),
            },
            SInstrKind::Gallery(l) => match tok {
                SToken::Str(s) => Ok((SInstrKind::Gallery(l.push(s)), false)),
                _ => Err(SParseError::UnexpectedToken(tok, pos)),
            },
            SInstrKind::Keywords(l) => match tok {
                SToken::Str(s) => Ok((SInstrKind::Keywords(l.push(s)), false)),
                _ => Err(SParseError::UnexpectedToken(tok, pos)),
            },
            SInstrKind::Categories(l) => match tok {
                SToken::Str(s) => Ok((SInstrKind::Categories(l.push(s)), false)),
                _ => Err(SParseError::UnexpectedToken(tok, pos)),
            },
            SInstrKind::Features(l) => match tok {
                SToken::Str(s) => Ok((SInstrKind::Features(l.push(s)), false)),
                _ => Err(SParseError::UnexpectedToken(tok, pos)),
            },
            SInstrKind::DefaultFeatures(l) => match tok {
                SToken::Str(s) => Ok((SInstrKind::DefaultFeatures(l.push(s)), false)),
                _ => Err(SParseError::UnexpectedToken(tok, pos)),
            },
            SInstrKind::Tags(l) => match tok {
                SToken::Str(s) => Ok((SInstrKind::Tags(l.push(s)), false)),
                _ => Err(SParseError::UnexpectedToken(tok, pos)),
            },
            SInstrKind::Cmd(l) => match spec_value_arg(tok, pos) {
                Ok(v) => Ok((SInstrKind::Cmd(l.push(v)), false)),
                Err(e) => Err(e),
            },
            SInstrKind::Recommend(inverted, v) => if tok is Bang {
                if inverted || !(v is Empty) {
                    Err(SParseError::UnexpectedToken(tok, pos))
                } else {
                    Ok((SInstrKind::Recommend(true, v), false))
                }
            } else {
                match spec_value_slot_step(v, tok, pos) {
                    Ok(v) => Ok((SInstrKind::Recommend(inverted, v), false)),
                    Err(e) => Err(e),
                }
            },
            SInstrKind::SupportedModloaders(l) => match spec_ident_list_step(
                l,
                tok,
                pos,
                |s: Seq<char>| spec_modloader_match(s),
                SParseError::InvalidModloader,
            ) {
                Ok(l) => Ok((SInstrKind::SupportedModloaders(l), false)),
                Err(e) => Err(e),
            },
            SInstrKind::SupportedPluginLoaders(l) => match spec_ident_list_step(
                l,
                tok,
                pos,
                |s: Seq<char>| spec_plugin_loader_match(s),
                SParseError::InvalidPluginLoader,
            ) {
                Ok(l) => Ok((SInstrKind::SupportedPluginLoaders(l), false)),
                Err(e) => Err(e),
            },
            SInstrKind::SupportedSides(l) => match spec_ident_list_step(
                l,
                tok,
                pos,
                |s: Seq<char>| spec_game_side(s),
                SParseError::InvalidSide,
            ) {
                Ok(l) => Ok((SInstrKind::SupportedSides(l), false)),
                Err(e) => Err(e),
            },
            SInstrKind::Compat(a, b) => if a is Empty {
                match spec_value_arg(tok, pos) {
                    Ok(v) => Ok((SInstrKind::Compat(v, b), false)),
                    Err(e) => Err(e),
                }
            } else if b is Empty {
                match spec_value_arg(tok, pos) {
                    Ok(v) => Ok((SInstrKind::Compat(a, v), false)),
                    Err(e) => Err(e),
                }
            } else {
                Err(SParseError::UnexpectedToken(tok, pos))
            },
            SInstrKind::SetVar(var, val) => if var is Full {
                match spec_value_slot_step(val, tok, pos) {
                    Ok(v) => Ok((SInstrKind::SetVar(var, v), false)),
                    Err(e) => Err(e),
                }
            } else {
                match tok {
                    SToken::Ident(name) => Ok((SInstrKind::SetVar(Later::Full(name), val), false)),
                    _ => Err(SParseError::UnexpectedToken(tok, pos)),
                }
            },
            SInstrKind::Fail(reason) => match tok {
                SToken::Ident(name) => if reason is None {
                    match spec_fail_reason(name) {
                        Some(r) => Ok((SInstrKind::Fail(Some(r)), false)),
                        None => Err(SParseError::UnknownFailReason(name, pos)),
                    }
                } else {
                    Err(SParseError::UnexpectedToken(tok, pos))
                },
                _ => Err(SParseError::UnexpectedToken(tok, pos)),
            },
            SInstrKind::Call(_) => match tok {
                SToken::Ident(name) => if spec_is_reserved(name) {
                    Err(SParseError::ReservedRoutineCall(name, pos))
                } else {
                    Ok((SInstrKind::Call(Later::Full(name)), false))
                },
                _ => Err(SParseError::UnexpectedToken(tok, pos)),
            },
            _ => Ok((k, false)),
        }
    }
}

/// The value that a generic instruction argument stands for: a variable, a string or a
/// number as its decimal text.
pub open spec fn spec_parse_arg(tok: SToken) -> Option<SValue> {
    match tok {
        SToken::Variable(name) => Some(SValue::Var(name)),
        SToken::Str(text) => Some(SValue::Constant(text)),
        SToken::Num(n) => Some(SValue::Constant(int_decimal(n))),
        _ => None,
    }
}

/// Parses a generic instruction argument with variable support
pub fn parse_arg(tok: &Token, pos: TextPos) -> (r: Result<Value, ParseError>)
    ensures
        match spec_parse_arg(tok@) {
            Some(v) => r matches Ok(val) && val@ == v,
            None => r matches Err(e) && e@ == SParseError::UnexpectedToken(tok@, pos@),
        },
{
    match tok {
        Token::Variable(name) => Ok(Value::Var(name.clone())),
        Token::Str(text) => Ok(Value::Constant(text.clone())),
        Token::Num(num) => Ok(Value::Constant(i64_to_decimal(*num))),
        _ => Err(unexpected(tok, pos)),
    }
}

/// Parses a constant string argument
pub fn parse_string(tok: &Token, pos: TextPos) -> (r: Result<String, ParseError>)
    ensures
        match tok@ {
            SToken::Str(s) => r matches Ok(val) && val@ == s,
            _ => r matches Err(e) && e@ == SParseError::UnexpectedToken(tok@, pos@),
        },
{
    match tok {
        Token::Str(text) => Ok(text.clone()),
        _ => Err(unexpected(tok, pos)),
    }
}

fn later_string_step(t: Later<String>, tok: &Token, pos: TextPos) -> (r: (Later<String>, Result<bool, ParseError>))
    ensures
        match spec_later_string_step(later_view(t), tok@, pos@) {
            Ok(n) => r.1 == Ok::<bool, ParseError>(false) && later_view(r.0) == n,
            Err(e) => r.1 matches Err(err) && err@ == e && later_view(r.0) == later_view(t),
        },
{
    if t.is_empty() {
        match parse_string(tok, pos) {
            Ok(s) => (Later::Full(s), Ok(false)),
            Err(e) => (t, Err(e)),
        }
    } else {
        (t, Err(unexpected(tok, pos)))
    }
}

fn value_slot_step(v: Value, tok: &Token, pos: TextPos) -> (r: (Value, Result<bool, ParseError>))
    ensures
        match spec_value_slot_step(v@, tok@, pos@) {
            Ok(n) => r.1 == Ok::<bool, ParseError>(false) && r.0@ == n,
            Err(e) => r.1 matches Err(err) && err@ == e && r.0@ == v@,
        },
{
    if !v.is_some() {
        match parse_arg(tok, pos) {
            Ok(n) => (n, Ok(false)),
            Err(e) => (v, Err(e)),
        }
    } else {
        (v, Err(unexpected(tok, pos)))
    }
}

fn string_list_step(l: Vec<String>, tok: &Token, pos: TextPos) -> (r: (Vec<String>, Result<bool, ParseError>))
    ensures
        match tok@ {
            SToken::Str(s) => r.1 == Ok::<bool, ParseError>(false) && r.0.deep_view() == l.deep_view().push(s),
            _ => r.1 matches Err(err) && err@ == SParseError::UnexpectedToken(tok@, pos@)
                && r.0.deep_view() == l.deep_view(),
        },
{
    match parse_string(tok, pos) {
        Ok(s) => {
            let mut l = l;
            let ghost old_l = l;
            l.push(s);
            proof {
                assert(l.deep_view() =~= old_l.deep_view().push(s@));
            }
            (l, Ok(false))
        },
        Err(e) => (l, Err(e)),
    }
}

/// The instruction names, as literals, are all different.
proof fn lemma_instruction_literals()
    ensures
        "name"@ =~= seq!['n', 'a', 'm', 'e'],
        "description"@ =~= seq!['d', 'e', 's', 'c', 'r', 'i', 'p', 't', 'i', 'o', 'n'],
        "long_description"@ =~= seq!['l', 'o', 'n', 'g', '_', 'd', 'e', 's', 'c', 'r', 'i', 'p', 't', 'i', 'o', 'n'],
        "authors"@ =~= seq!['a', 'u', 't', 'h', 'o', 'r', 's'],
        "package_maintainers"@ =~= seq!['p', 'a', 'c', 'k', 'a', 'g', 'e', '_', 'm', 'a', 'i', 'n', 't', 'a', 'i', 'n', 'e', 'r', 's'],
        "website"@ =~= seq!['w', 'e', 'b', 's', 'i', 't', 'e'],
        "support_link"@ =~= seq!['s', 'u', 'p', 'p', 'o', 'r', 't', '_', 'l', 'i', 'n', 'k'],
        "documentation"@ =~= seq!['d', 'o', 'c', 'u', 'm', 'e', 'n', 't', 'a', 't', 'i', 'o', 'n'],
        "source"@ =~= seq!['s', 'o', 'u', 'r', 'c', 'e'],
        "issues"@ =~= seq!['i', 's', 's', 'u', 'e', 's'],
        "community"@ =~= seq!['c', 'o', 'm', 'm', 'u', 'n', 'i', 't', 'y'],
        "icon"@ =~= seq!['i', 'c', 'o', 'n'],
        "banner"@ =~= seq!['b', 'a', 'n', 'n', 'e', 'r'],
        "license"@ =~= seq!['l', 'i', 'c', 'e', 'n', 's', 'e'],
        "features"@ =~= seq!['f', 'e', 'a', 't', 'u', 'r', 'e', 's'],
        "default_features"@ =~= seq!['d', 'e', 'f', 'a', 'u', 'l', 't', '_', 'f', 'e', 'a', 't', 'u', 'r', 'e', 's'],
        "modrinth_id"@ =~= seq!['m', 'o', 'd', 'r', 'i', 'n', 't', 'h', '_', 'i', 'd'],
        "curseforge_id"@ =~= seq!['c', 'u', 'r', 's', 'e', 'f', 'o', 'r', 'g', 'e', '_', 'i', 'd'],
        "supported_modloaders"@ =~= seq!['s', 'u', 'p', 'p', 'o', 'r', 't', 'e', 'd', '_', 'm', 'o', 'd', 'l', 'o', 'a', 'd', 'e', 'r', 's'],
        "supported_plugin_loaders"@ =~= seq!['s', 'u', 'p', 'p', 'o', 'r', 't', 'e', 'd', '_', 'p', 'l', 'u', 'g', 'i', 'n', '_', 'l', 'o', 'a', 'd', 'e', 'r', 's'],
        "supported_sides"@ =~= seq!['s', 'u', 'p', 'p', 'o', 'r', 't', 'e', 'd', '_', 's', 'i', 'd', 'e', 's'],
        "set"@ =~= seq!['s', 'e', 't'],
        "finish"@ =~= seq!['f', 'i', 'n', 'i', 's', 'h'],
        "fail"@ =~= seq!['f', 'a', 'i', 'l'],
        "refuse"@ =~= seq!['r', 'e', 'f', 'u', 's', 'e'],
        "recommend"@ =~= seq!['r', 'e', 'c', 'o', 'm', 'm', 'e', 'n', 'd'],
        "bundle"@ =~= seq!['b', 'u', 'n', 'd', 'l', 'e'],
        "compat"@ =~= seq!['c', 'o', 'm', 'p', 'a', 't'],
        "extend"@ =~= seq!['e', 'x', 't', 'e', 'n', 'd'],
        "notice"@ =~= seq!['n', 'o', 't', 'i', 'c', 'e'],
        "call"@ =~= seq!['c', 'a', 'l', 'l'],
{
    reveal_strlit("name");
    reveal_strlit("description");
    reveal_strlit("long_description");
    reveal_strlit("authors");
    reveal_strlit("package_maintainers");
    reveal_strlit("website");
    reveal_strlit("support_link");
    reveal_strlit("documentation");
    reveal_strlit("source");
    reveal_strlit("issues");
    reveal_strlit("community");
    reveal_strlit("icon");
    reveal_strlit("banner");
    reveal_strlit("license");
    reveal_strlit("features");
    reveal_strlit("default_features");
    reveal_strlit("modrinth_id");
    reveal_strlit("curseforge_id");
    reveal_strlit("supported_modloaders");
    reveal_strlit("supported_plugin_loaders");
    reveal_strlit("supported_sides");
    reveal_strlit("set");
    reveal_strlit("finish");
    reveal_strlit("fail");
    reveal_strlit("refuse");
    reveal_strlit("recommend");
    reveal_strlit("bundle");
    reveal_strlit("compat");
    reveal_strlit("extend");
    reveal_strlit("notice");
    reveal_strlit("call");
}

/// An empty list of strings.
fn empty_strings() -> (r: Vec<String>)
    ensures
        r.deep_view() == Seq::<Seq<char>>::empty(),
{
    let r: Vec<String> = Vec::new();
    proof {
        assert(r.deep_view() =~= Seq::<Seq<char>>::empty());
    }
    r
}

impl InstrKind {
    /// The keyword of this kind of instruction, as scripts write it
    pub fn name(&self) -> (r: &'static str)
        ensures
            r@ == spec_instr_name(self@),
    {
        proof {
            reveal_strlit("if");
            reveal_strlit("name");
            reveal_strlit("description");
            reveal_strlit("long_description");
            reveal_strlit("authors");
            reveal_strlit("package_maintainers");
            reveal_strlit("website");
            reveal_strlit("support_link");
            reveal_strlit("documentation");
            reveal_strlit("source");
            reveal_strlit("issues");
            reveal_strlit("community");
            reveal_strlit("icon");
            reveal_strlit("banner");
            reveal_strlit("gallery");
            reveal_strlit("license");
            reveal_strlit("keywords");
            reveal_strlit("categories");
            reveal_strlit("features");
            reveal_strlit("default_features");
            reveal_strlit("modrinth_id");
            reveal_strlit("curseforge_id");
            reveal_strlit("supported_modloaders");
            reveal_strlit("supported_plugin_loaders");
            reveal_strlit("supported_sides");
            reveal_strlit("tags");
            reveal_strlit("addon");
            reveal_strlit("set");
            reveal_strlit("require");
            reveal_strlit("refuse");
            reveal_strlit("recommend");
            reveal_strlit("bundle");
            reveal_strlit("compat");
            reveal_strlit("extend");
            reveal_strlit("finish");
            reveal_strlit("fail");
            reveal_strlit("notice");
            reveal_strlit("cmd");
            reveal_strlit("call");
        }
        match self {
            InstrKind::If { .. } => "if",
            InstrKind::Name(..) => "name",
            InstrKind::Description(..) => "description",
            InstrKind::LongDescription(..) => "long_description",
            InstrKind::Authors(..) => "authors",
            InstrKind::PackageMaintainers(..) => "package_maintainers",
            InstrKind::Website(..) => "website",
            InstrKind::SupportLink(..) => "support_link",
            InstrKind::Documentation(..) => "documentation",
            InstrKind::Source(..) => "source",
            InstrKind::Issues(..) => "issues",
            InstrKind::Community(..) => "community",
            InstrKind::Icon(..) => "icon",
            InstrKind::Banner(..) => "banner",
            InstrKind::Gallery(..) => "gallery",
            InstrKind::License(..) => "license",
            InstrKind::Keywords(..) => "keywords",
            InstrKind::Categories(..) => "categories",
            InstrKind::Features(..) => "features",
            InstrKind::DefaultFeatures(..) => "default_features",
            InstrKind::ModrinthID(..) => "modrinth_id",
            InstrKind::CurseForgeID(..) => "curseforge_id",
            InstrKind::SupportedModloaders(..) => "supported_modloaders",
            InstrKind::SupportedPluginLoaders(..) => "supported_plugin_loaders",
            InstrKind::SupportedSides(..) => "supported_sides",
            InstrKind::Tags(..) => "tags",
            InstrKind::Addon { .. } => "addon",
            InstrKind::SetVar(..) => "set",
            InstrKind::Require(..) => "require",
            InstrKind::Refuse(..) => "refuse",
            InstrKind::Recommend(..) => "recommend",
            InstrKind::Bundle(..) => "bundle",
            InstrKind::Compat(..) => "compat",
            InstrKind::Extend(..) => "extend",
            InstrKind::Finish() => "finish",
            InstrKind::Fail(..) => "fail",
            InstrKind::Notice(..) => "notice",
            InstrKind::Cmd(..) => "cmd",
            InstrKind::Call(..) => "call",
        }
    }
}

impl Instruction {
    /// Create a new instruction
    pub fn new(kind: InstrKind) -> (r: Instruction)
        ensures
            r.kind@ == kind@,
    {
        Instruction { kind }
    }

    /// Starts an instruction from the provided string
    pub fn from_str(string: &str, pos: TextPos) -> (r: Result<Instruction, ParseError>)
        ensures
            match spec_instr_from_str(string@) {
                Some(k) => r matches Ok(i) && i.kind@ == k,
                None => r matches Err(e) && e@ == SParseError::UnknownInstruction(string@, pos@),
            },
    {
        proof {
            lemma_instruction_literals();
        }
        let kind = if str_eq(string, "name") {
            InstrKind::Name(Later::Empty)
        } else if str_eq(string, "description") {
            InstrKind::Description(Later::Empty)
        } else if str_eq(string, "long_description") {
            InstrKind::LongDescription(Later::Empty)
        } else if str_eq(string, "authors") {
            InstrKind::Authors(empty_strings())
        } else if str_eq(string, "package_maintainers") {
            InstrKind::PackageMaintainers(empty_strings())
        } else if str_eq(string, "website") {
            InstrKind::Website(Later::Empty)
        } else if str_eq(string, "support_link") {
            InstrKind::SupportLink(Later::Empty)
        } else if str_eq(string, "documentation") {
            InstrKind::Documentation(Later::Empty)
        } else if str_eq(string, "source") {
            InstrKind::Source(Later::Empty)
        } else if str_eq(string, "issues") {
            InstrKind::Issues(Later::Empty)
        } else if str_eq(string, "community") {
            InstrKind::Community(Later::Empty)
        } else if str_eq(string, "icon") {
            InstrKind::Icon(Later::Empty)
        } else if str_eq(string, "banner") {
            InstrKind::Banner(Later::Empty)
        } else if str_eq(string, "license") {
            InstrKind::License(Later::Empty)
        } else if str_eq(string, "features") {
            InstrKind::Features(empty_strings())
        } else if str_eq(string, "default_features") {
            InstrKind::DefaultFeatures(empty_strings())
        } else if str_eq(string, "modrinth_id") {
            InstrKind::ModrinthID(Later::Empty)
        } else if str_eq(string, "curseforge_id") {
            InstrKind::CurseForgeID(Later::Empty)
        } else if str_eq(string, "supported_modloaders") {
            InstrKind::SupportedModloaders(Vec::new())
        } else if str_eq(string, "supported_plugin_loaders") {
            InstrKind::SupportedPluginLoaders(Vec::new())
        } else if str_eq(string, "supported_sides") {
            InstrKind::SupportedSides(Vec::new())
        } else if str_eq(string, "set") {
            InstrKind::SetVar(Later::Empty, Value::Empty)
        } else if str_eq(string, "finish") {
            InstrKind::Finish()
        } else if str_eq(string, "fail") {
            InstrKind::Fail(None)
        } else if str_eq(string, "refuse") {
            InstrKind::Refuse(Value::Empty)
        } else if str_eq(string, "recommend") {
            InstrKind::Recommend(false, Value::Empty)
        } else if str_eq(string, "bundle") {
            InstrKind::Bundle(Value::Empty)
        } else if str_eq(string, "compat") {
            InstrKind::Compat(Value::Empty, Value::Empty)
        } else if str_eq(string, "extend") {
            InstrKind::Extend(Value::Empty)
        } else if str_eq(string, "notice") {
            InstrKind::Notice(Value::Empty)
        } else if str_eq(string, "call") {
            InstrKind::Call(Later::Empty)
        } else {
            return Err(ParseError::UnknownInstruction(crate::text::owned(string), pos));
        };
        Ok(Instruction::new(kind))
    }

    /// Checks if this instruction is finished parsing
    /// Only works for simple instructions, not those with special parse modes
    pub fn is_finished_parsing(&self) -> (r: bool)
        requires
            spec_has_simple_parse(self.kind@),
        ensures
            r == spec_instr_finished(self.kind@),
    {
        match &self.kind {
            InstrKind::Name(t)
            | InstrKind::Description(t)
            | InstrKind::LongDescription(t)
            | InstrKind::Website(t)
            | InstrKind::SupportLink(t)
            | InstrKind::Documentation(t)
            | InstrKind::Source(t)
            | InstrKind::Issues(t)
            | InstrKind::Community(t)
            | InstrKind::Icon(t)
            | InstrKind::Banner(t)
            | InstrKind::License(t)
            | InstrKind::ModrinthID(t)
            | InstrKind::CurseForgeID(t)
            | InstrKind::Call(t) => t.is_full(),
            InstrKind::Authors(l)
            | InstrKind::PackageMaintainers(l)
            | InstrKind::Gallery(l)
            | InstrKind::Keywords(l)
            | InstrKind::Categories(l)
            | InstrKind::Features(l)
            | InstrKind::DefaultFeatures(l)
            | InstrKind::Tags(l) => l.len() > 0,
            InstrKind::Refuse(v)
            | InstrKind::Bundle(v)
            | InstrKind::Extend(v)
            | InstrKind::Notice(v) => v.is_some(),
            InstrKind::Recommend(_, v) => v.is_some(),
            InstrKind::SupportedModloaders(l) => l.len() > 0,
            InstrKind::SupportedPluginLoaders(l) => l.len() > 0,
            InstrKind::SupportedSides(l) => l.len() > 0,
            InstrKind::Compat(a, b) => a.is_some() && b.is_some(),
            InstrKind::SetVar(t, v) => t.is_full() && v.is_some(),
            InstrKind::Cmd(l) => l.len() > 0,
            InstrKind::Fail(..) | InstrKind::Finish() => true,
            InstrKind::If { .. } | InstrKind::Addon { .. } | InstrKind::Require(..) => false,
        }
    }

    fn step(kind: InstrKind, tok: &Token, pos: TextPos) -> (r: (InstrKind, Result<bool, ParseError>))
        requires
            tok@ is Semicolon ==> spec_has_simple_parse(kind@),
        ensures
            match spec_instr_step(kind@, tok@, pos@) {
                Ok((n, done)) => r.1 == Ok::<bool, ParseError>(done) && r.0@ == n,
                Err(e) => r.1 matches Err(err) && err@ == e && r.0@ == kind@,
            },
    {
        if let Token::Semicolon = tok {
            let instr = Instruction { kind };
            if !instr.is_finished_parsing() {
                return (instr.kind, Err(ParseError::IncompleteInstruction(pos)));
            }
            return (instr.kind, Ok(true));
        }
        match kind {
            InstrKind::Name(t) => {
                let (t, r) = later_string_step(t, tok, pos);
                (InstrKind::Name(t), r)
            },
            InstrKind::Description(t) => {
                let (t, r) = later_string_step(t, tok, pos);
                (InstrKind::Description(t), r)
            },
            InstrKind::LongDescription(t) => {
                let (t, r) = later_string_step(t, tok, pos);
                (InstrKind::LongDescription(t), r)
            },
            InstrKind::Website(t) => {
                let (t, r) = later_string_step(t, tok, pos);
                (InstrKind::Website(t), r)
            },
            InstrKind::SupportLink(t) => {
                let (t, r) = later_string_step(t, tok, pos);
                (InstrKind::SupportLink(t), r)
            },
            InstrKind::Documentation(t) => {
                let (t, r) = later_string_step(t, tok, pos);
                (InstrKind::Documentation(t), r)
            },
            InstrKind::Source(t) => {
                let (t, r) = later_string_step(t, tok, pos);
                (InstrKind::Source(t), r)
            },
            InstrKind::Issues(t) => {
                let (t, r) = later_string_step(t, tok, pos);
                (InstrKind::Issues(t), r)
            },
            InstrKind::Community(t) => {
                let (t, r) = later_string_step(t, tok, pos);
                (InstrKind::Community(t), r)
            },
            InstrKind::Icon(t) => {
                let (t, r) = later_string_step(t, tok, pos);
                (InstrKind::Icon(t), r)
            },
            InstrKind::Banner(t) => {
                let (t, r) = later_string_step(t, tok, pos);
                (InstrKind::Banner(t), r)
            },
            InstrKind::License(t) => {
                let (t, r) = later_string_step(t, tok, pos);
                (InstrKind::License(t), r)
            },
            InstrKind::ModrinthID(t) => {
                let (t, r) = later_string_step(t, tok, pos);
                (InstrKind::ModrinthID(t), r)
            },
            InstrKind::CurseForgeID(t) => {
                let (t, r) = later_string_step(t, tok, pos);
                (InstrKind::CurseForgeID(t), r)
            },
            InstrKind::Refuse(v) => {
                let (v, r) = value_slot_step(v, tok, pos);
                (InstrKind::Refuse(v), r)
            },
            InstrKind::Bundle(v) => {
                let (v, r) = value_slot_step(v, tok, pos);
                (InstrKind::Bundle(v), r)
            },
            InstrKind::Extend(v) => {
                let (v, r) = value_slot_step(v, tok, pos);
                (InstrKind::Extend(v), r)
            },
            InstrKind::Notice(v) => {
                let (v, r) = value_slot_step(v, tok, pos);
                (InstrKind::Notice(v), r)
            },
            InstrKind::Authors(l) => {
                let (l, r) = string_list_step(l, tok, pos);
                (InstrKind::Authors(l), r)
            },
            InstrKind::PackageMaintainers(l) => {
                let (l, r) = string_list_step(l, tok, pos);
                (InstrKind::PackageMaintainers(l), r)
            },
            InstrKind::Gallery(l) => {
                let (l, r) = string_list_step(l, tok, pos);
                (InstrKind::Gallery(l), r)
            },
            InstrKind::Keywords(l) => {
                let (l, r) = string_list_step(l, tok, pos);
                (InstrKind::Keywords(l), r)
            },
            InstrKind::Categories(l) => {
                let (l, r) = string_list_step(l, tok, pos);
                (InstrKind::Categories(l), r)
            },
            InstrKind::Features(l) => {
                let (l, r) = string_list_step(l, tok, pos);
                (InstrKind::Features(l), r)
            },
            InstrKind::DefaultFeatures(l) => {
                let (l, r) = string_list_step(l, tok, pos);
                (InstrKind::DefaultFeatures(l), r)
            },
            InstrKind::Tags(l) => {
                let (l, r) = string_list_step(l, tok, pos);
                (InstrKind::Tags(l), r)
            },
            InstrKind::Cmd(l) => {
                match parse_arg(tok, pos) {
                    Ok(v) => {
                        let mut l = l;
                        let ghost old_l = l@;
                        l.push(v);
                        proof {
                            assert(values_view(l@) =~= values_view(old_l).push(v@));
                        }
                        (InstrKind::Cmd(l), Ok(false))
                    },
                    Err(e) => (InstrKind::Cmd(l), Err(e)),
                }
            },
            InstrKind::Recommend(inverted, v) => {
                if let Token::Bang = tok {
                    if inverted || v.is_some() {
                        (InstrKind::Recommend(inverted, v), Err(unexpected(tok, pos)))
                    } else {
                        (InstrKind::Recommend(true, v), Ok(false))
                    }
                } else {
                    let (v, r) = value_slot_step(v, tok, pos);
                    (InstrKind::Recommend(inverted, v), r)
                }
            },
            InstrKind::SupportedModloaders(l) => match tok {
                Token::Ident(name) => match ModloaderMatch::parse_from_str(name.as_str()) {
                    Some(m) => {
                        let mut l = l;
                        l.push(m);
                        (InstrKind::SupportedModloaders(l), Ok(false))
                    },
                    None => (InstrKind::SupportedModloaders(l), Err(ParseError::InvalidModloader)),
                },
                _ => (InstrKind::SupportedModloaders(l), Err(unexpected(tok, pos))),
            },
            InstrKind::SupportedPluginLoaders(l) => match tok {
                Token::Ident(name) => match PluginLoaderMatch::parse_from_str(name.as_str()) {
                    Some(m) => {
                        let mut l = l;
                        l.push(m);
                        (InstrKind::SupportedPluginLoaders(l), Ok(false))
                    },
                    None => (InstrKind::SupportedPluginLoaders(l), Err(ParseError::InvalidPluginLoader)),
                },
                _ => (InstrKind::SupportedPluginLoaders(l), Err(unexpected(tok, pos))),
            },
            InstrKind::SupportedSides(l) => match tok {
                Token::Ident(name) => match GameSide::parse_from_str(name.as_str()) {
                    Some(m) => {
                        let mut l = l;
                        l.push(m);
                        (InstrKind::SupportedSides(l), Ok(false))
                    },
                    None => (InstrKind::SupportedSides(l), Err(ParseError::InvalidSide)),
                },
                _ => (InstrKind::SupportedSides(l), Err(unexpected(tok, pos))),
            },
            InstrKind::Compat(a, b) => {
                if !a.is_some() {
                    match parse_arg(tok, pos) {
                        Ok(v) => (InstrKind::Compat(v, b), Ok(false)),
                        Err(e) => (InstrKind::Compat(a, b), Err(e)),
                    }
                } else if !b.is_some() {
                    match parse_arg(tok, pos) {
                        Ok(v) => (InstrKind::Compat(a, v), Ok(false)),
                        Err(e) => (InstrKind::Compat(a, b), Err(e)),
                    }
                } else {
                    (InstrKind::Compat(a, b), Err(unexpected(tok, pos)))
                }
            },
            InstrKind::SetVar(var, val) => {
                if var.is_full() {
                    let (val, r) = value_slot_step(val, tok, pos);
                    (InstrKind::SetVar(var, val), r)
                } else {
                    match tok {
                        Token::Ident(name) => (InstrKind::SetVar(Later::Full(name.clone()), val), Ok(false)),
                        _ => (InstrKind::SetVar(var, val), Err(unexpected(tok, pos))),
                    }
                }
            },
            InstrKind::Fail(reason) => match tok {
                Token::Ident(name) => {
                    if reason.is_none() {
                        match FailReason::from_string(name.as_str()) {
                            Some(r) => (InstrKind::Fail(Some(r)), Ok(false)),
                            None => (InstrKind::Fail(reason), Err(ParseError::UnknownFailReason(name.clone(), pos))),
                        }
                    } else {
                        (InstrKind::Fail(reason), Err(unexpected(tok, pos)))
                    }
                },
                _ => (InstrKind::Fail(reason), Err(unexpected(tok, pos))),
            },
            InstrKind::Call(routine) => match tok {
                Token::Ident(name) => {
                    if is_reserved(name.as_str()) {
                        (InstrKind::Call(routine), Err(ParseError::ReservedRoutineCall(name.clone(), pos)))
                    } else {
                        (InstrKind::Call(Later::Full(name.clone())), Ok(false))
                    }
                },
                _ => (InstrKind::Call(routine), Err(unexpected(tok, pos))),
            },
            other => (other, Ok(false)),
        }
    }

    /// Parses a token and returns true if finished.
    pub fn parse(&mut self, tok: &Token, pos: TextPos) -> (r: Result<bool, ParseError>)
        requires
            tok@ is Semicolon ==> spec_has_simple_parse(old(self).kind@),
        ensures
            match spec_instr_step(old(self).kind@, tok@, pos@) {
                Ok((n, done)) => r == Ok::<bool, ParseError>(done) && final(self).kind@ == n,
                Err(e) => r matches Err(err) && err@ == e && final(self).kind@ == old(self).kind@,
            },
    {
        let mut kind = InstrKind::Finish();
        std::mem::swap(&mut kind, &mut self.kind);
        let (kind, r) = Self::step(kind, tok, pos);
        self.kind = kind;
        r
    }
}

} // verus!
