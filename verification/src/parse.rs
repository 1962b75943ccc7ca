//! General parsing of package scripts

use vstd::prelude::*;
use vstd::hash_map::StringHashMap;
use vstd::string::StringSliceAdditionalSpecFns;

use crate::addon::{FilledKeys, Key, State};
use crate::conditions::{
    spec_cond_finished, spec_cond_parse, spec_condition_from_str, Condition, ConditionKind,
    SCondition,
};
use crate::instruction::{
    parse_arg, spec_has_simple_parse, spec_instr_finished, spec_instr_from_str, spec_instr_step,
    spec_parse_arg, AddonHashes,
    ElseBlock, InstrKind, Instruction, SInstrKind,
};
use crate::lex::{
    lex, reduce_tokens, spec_lex, try_lex, tokens_view, LexError, LexOutcome, SLexError, SToken, Side, TextPos,
    Token,
};
use crate::parse_error::{unexpected, ParseError, SParseError};
use crate::require::{group_view, groups_view, Package, SPackage};
use crate::shared::{spec_addon_kind, AddonKind};
use crate::text::str_eq;
use crate::vars::{SValue, Value};

verus! {

/// The type we use to index blocks
pub type BlockId = u16;

/// The name of the routine that holds instructions outside of any routine.
pub const DEFAULT_ROUTINE: &'static str = "__default__";

/// A list of instructions inside a routine or nested block (such as an if block)
#[derive(Debug)]
pub struct Block {
    pub contents: Vec<Instruction>,
    pub parent: Option<BlockId>,
}

/// The mathematical value of a block.
pub struct SBlock {
    pub contents: Seq<SInstrKind>,
    pub parent: Option<BlockId>,
}

/// The mathematical value of a list of instructions.
pub open spec fn instrs_view(v: Seq<Instruction>) -> Seq<SInstrKind> {
    v.map_values(|i: Instruction| i.kind@)
}

impl View for Block {
    type V = SBlock;

    open spec fn view(&self) -> SBlock {
        SBlock { contents: instrs_view(self.contents@), parent: self.parent }
    }
}

impl Block {
    pub fn new(parent: Option<BlockId>) -> (r: Block)
        ensures
            r@ == (SBlock { contents: Seq::empty(), parent }),
    {
        let r = Block { contents: Vec::new(), parent };
        proof {
            assert(instrs_view(r.contents@) =~= Seq::empty());
        }
        r
    }

    pub fn push(&mut self, instr: Instruction)
        ensures
            final(self)@ == (SBlock {
                contents: old(self)@.contents.push(instr.kind@),
                parent: old(self).parent,
            }),
    {
        let ghost k = instr.kind@;
        self.contents.push(instr);
        proof {
            assert(instrs_view(self.contents@) =~= instrs_view(old(self).contents@).push(k));
        }
    }
}

/// The mathematical value of a list of blocks; block `id` stands at index `id - 1`.
pub open spec fn blocks_view(v: Seq<Block>) -> Seq<SBlock> {
    v.map_values(|b: Block| b@)
}

/// The final result of parsed data: blocks by ID and routines by name
pub struct Parsed {
    blocks: Vec<Block>,
    routines: StringHashMap<BlockId>,
}

/// The mathematical value of parsed data.
pub struct SParsed {
    /// Block `id` is at index `id - 1`
    pub blocks: Seq<SBlock>,
    pub routines: Map<Seq<char>, BlockId>,
}

impl View for Parsed {
    type V = SParsed;

    closed spec fn view(&self) -> SParsed {
        SParsed { blocks: blocks_view(self.blocks@), routines: self.routines@ }
    }
}

/// The name of the default routine.
pub open spec fn default_routine() -> Seq<char> {
    "__default__"@
}

/// Adds an empty block with the given parent; `None` where its ID would not fit.
pub open spec fn spec_new_block(blocks: Seq<SBlock>, parent: Option<BlockId>) -> Option<
    (Seq<SBlock>, BlockId),
> {
    if blocks.len() + 1 > u16::MAX {
        None
    } else {
        Some((blocks.push(SBlock { contents: Seq::empty(), parent }), (blocks.len() + 1) as u16))
    }
}

/// Adds an instruction to the block with the given ID, if it exists.
pub open spec fn spec_push_instr(blocks: Seq<SBlock>, id: BlockId, k: SInstrKind) -> Seq<SBlock> {
    if 1 <= id <= blocks.len() {
        blocks.update(
            id - 1,
            SBlock { contents: blocks[id - 1].contents.push(k), parent: blocks[id - 1].parent },
        )
    } else {
        blocks
    }
}

/// The block to continue in when the block `id` is closed: its parent, if it has one.
pub open spec fn spec_close_block(blocks: Seq<SBlock>, id: BlockId) -> BlockId {
    if 1 <= id <= blocks.len() {
        match blocks[id - 1].parent {
            Some(p) => p,
            None => id,
        }
    } else {
        id
    }
}

/// The parsed data before any token.
pub open spec fn spec_parsed_init() -> SParsed {
    SParsed {
        blocks: seq![SBlock { contents: Seq::empty(), parent: None }],
        routines: map![default_routine() => 1u16],
    }
}

impl Parsed {
    /// Parsed data with the default routine and its empty block
    pub fn new() -> (r: Parsed)
        ensures
            r@ == spec_parsed_init(),
    {
        let mut blocks: Vec<Block> = Vec::new();
        blocks.push(Block::new(None));
        let mut routines: StringHashMap<BlockId> = StringHashMap::new();
        routines.insert(crate::text::owned(DEFAULT_ROUTINE), 1);
        let r = Parsed { blocks, routines };
        proof {
            assert(blocks_view(r.blocks@) =~= seq![SBlock { contents: Seq::empty(), parent: None }]);
            assert(r.routines@ =~= map![default_routine() => 1u16]);
        }
        r
    }

    /// The number of blocks
    pub fn block_count(&self) -> (r: usize)
        ensures
            r == self@.blocks.len(),
    {
        self.blocks.len()
    }

    /// The block at the given index, which holds the block whose ID is one more
    pub(crate) fn block_at(&self, index: usize) -> (r: &Block)
        requires
            index < self@.blocks.len(),
        ensures
            r@ == self@.blocks[index as int],
    {
        &self.blocks[index]
    }

    /// The block with the given ID, if it exists
    pub fn get_block(&self, id: BlockId) -> (r: Option<&Block>)
        ensures
            match r {
                Some(b) => 1 <= id <= self@.blocks.len() && b@ == self@.blocks[id - 1],
                None => !(1 <= id <= self@.blocks.len()),
            },
    {
        if id >= 1 && (id as usize) <= self.blocks.len() {
            Some(&self.blocks[(id - 1) as usize])
        } else {
            None
        }
    }

    /// The block ID of the routine with the given name, if it exists
    pub fn get_routine(&self, name: &str) -> (r: Option<BlockId>)
        ensures
            match r {
                Some(id) => self@.routines.contains_key(name@) && id == self@.routines[name@],
                None => !self@.routines.contains_key(name@),
            },
    {
        match self.routines.get(name) {
            Some(id) => Some(*id),
            None => None,
        }
    }

    /// Creates a new block and returns its ID
    pub fn new_block(&mut self, parent: Option<BlockId>) -> (r: BlockId)
        requires
            old(self)@.blocks.len() + 1 <= u16::MAX,
        ensures
            spec_new_block(old(self)@.blocks, parent) == Some((final(self)@.blocks, r)),
            final(self)@.routines == old(self)@.routines,
    {
        let ghost old_blocks = self@.blocks;
        let b = Block::new(parent);
        let ghost bv = b@;
        self.blocks.push(b);
        proof {
            assert(blocks_view(self.blocks@) =~= old_blocks.push(bv));
        }
        self.blocks.len() as u16
    }

    /// Creates a new routine and its associated block, then returns the block's ID
    pub fn new_routine(&mut self, name: &str) -> (r: BlockId)
        requires
            old(self)@.blocks.len() + 1 <= u16::MAX,
        ensures
            spec_new_block(old(self)@.blocks, None) == Some((final(self)@.blocks, r)),
            final(self)@.routines == old(self)@.routines.insert(name@, r),
    {
        let id = self.new_block(None);
        self.routines.insert(crate::text::owned(name), id);
        id
    }

    /// Adds an instruction to a block, if the block exists
    fn push_instr(&mut self, id: BlockId, instr: Instruction)
        ensures
            final(self)@.blocks == spec_push_instr(old(self)@.blocks, id, instr.kind@),
            final(self)@.routines == old(self)@.routines,
    {
        if id >= 1 && (id as usize) <= self.blocks.len() {
            let idx = (id - 1) as usize;
            let ghost old_blocks = self@.blocks;
            let ghost k = instr.kind@;
            let mut b = Block::new(None);
            std::mem::swap(&mut b, &mut self.blocks[idx]);
            b.push(instr);
            let ghost nb = b@;
            self.blocks.set(idx, b);
            proof {
                assert(blocks_view(self.blocks@) =~= old_blocks.update(idx as int, nb));
            }
        }
    }

    /// The block to continue in when the given block is closed
    fn close_block(&self, id: BlockId) -> (r: BlockId)
        ensures
            r == spec_close_block(self@.blocks, id),
    {
        if id >= 1 && (id as usize) <= self.blocks.len() {
            match self.blocks[(id - 1) as usize].parent {
                Some(p) => p,
                None => id,
            }
        } else {
            id
        }
    }
}


/// The mathematical value of the parser's mode.
pub enum SMode {
    Root,
    Routine(Option<Seq<char>>),
    Instr(SInstrKind),
    If(Option<SCondition>),
    Addon {
        state: State,
        key: Key,
        id: SValue,
        file_name: SValue,
        kind: Option<AddonKind>,
        url: SValue,
        path: SValue,
        version: SValue,
    },
    Require {
        groups: Seq<Seq<SPackage>>,
        current_group: Option<Seq<SPackage>>,
        current_package: Option<SPackage>,
        explicit_closed: bool,
    },
}

/// The state of the parser between two tokens.
pub struct SParseState {
    pub parsed: SParsed,
    pub block: BlockId,
    pub mode: SMode,
}

/// What a token does to the parser before the instruction and block bookkeeping.
pub enum MStep {
    Next { st: SParseState, push: Option<SInstrKind>, set_block: Option<BlockId>, close: bool },
    Fail(SParseError),
    /// A block ID no longer fits in `u16`; the parser panics on overflow
    Panic,
}

/// The outcome of parsing a whole list of tokens.
pub enum ParseOutcome {
    Parsed(SParsed),
    Fail(SParseError),
    Panic,
}

/// The parser with a new mode and nothing else to do.
pub open spec fn to_mode(st: SParseState, mode: SMode) -> MStep {
    MStep::Next { st: SParseState { mode, ..st }, push: None, set_block: None, close: false }
}

/// The parser that has finished an instruction.
pub open spec fn finish_instr(st: SParseState, k: SInstrKind) -> MStep {
    MStep::Next {
        st: SParseState { mode: SMode::Root, ..st },
        push: Some(k),
        set_block: None,
        close: false,
    }
}

/// The mode for the addon instruction at its start.
pub open spec fn addon_start() -> SMode {
    SMode::Addon {
        state: State::Id,
        key: Key::Unset,
        id: SValue::Empty,
        file_name: SValue::Empty,
        kind: None,
        url: SValue::Empty,
        path: SValue::Empty,
        version: SValue::Empty,
    }
}

/// The mode for the require instruction at its start.
pub open spec fn require_start() -> SMode {
    SMode::Require {
        groups: Seq::empty(),
        current_group: None,
        current_package: None,
        explicit_closed: true,
    }
}

/// A token in the root mode.
pub open spec fn spec_root_step(st: SParseState, tok: SToken, pos: (nat, nat)) -> MStep {
    match tok {
        SToken::At => if !(1 <= st.block <= st.parsed.blocks.len()) {
            MStep::Panic
        } else if st.parsed.blocks[st.block - 1].parent is Some {
            MStep::Fail(SParseError::UnexpectedRoutine(pos))
        } else {
            to_mode(st, SMode::Routine(None))
        },
        SToken::Ident(name) => if name == "if"@ {
            to_mode(st, SMode::If(None))
        } else if name == "addon"@ {
            to_mode(st, addon_start())
        } else if name == "require"@ {
            to_mode(st, require_start())
        } else {
            match spec_instr_from_str(name) {
                Some(k) => to_mode(st, SMode::Instr(k)),
                None => MStep::Fail(SParseError::UnknownInstruction(name, pos)),
            }
        },
        SToken::Curly(side) => match side {
            crate::lex::Side::Left => MStep::Fail(SParseError::UnexpectedToken(tok, pos)),
            crate::lex::Side::Right => MStep::Next {
                st: SParseState { mode: SMode::Root, ..st },
                push: None,
                set_block: None,
                close: true,
            },
        },
        _ => to_mode(st, SMode::Root),
    }
}

/// A token in the routine mode.
pub open spec fn spec_routine_step(st: SParseState, name: Option<Seq<char>>, tok: SToken, pos: (nat, nat)) -> MStep {
    match name {
        Some(name) => match tok {
            SToken::Curly(crate::lex::Side::Left) => match spec_new_block(st.parsed.blocks, None) {
                Some((blocks, id)) => MStep::Next {
                    st: SParseState {
                        parsed: SParsed { blocks, routines: st.parsed.routines.insert(name, id) },
                        block: id,
                        mode: SMode::Root,
                    },
                    push: None,
                    set_block: None,
                    close: false,
                },
                None => MStep::Panic,
            },
            _ => MStep::Fail(SParseError::UnexpectedToken(tok, pos)),
        },
        None => match tok {
            SToken::Ident(i) => to_mode(st, SMode::Routine(Some(i))),
            _ => MStep::Fail(SParseError::UnexpectedToken(tok, pos)),
        },
    }
}

/// A token in the if mode.
pub open spec fn spec_if_step(st: SParseState, cond: Option<SCondition>, tok: SToken, pos: (nat, nat)) -> MStep {
    match tok {
        SToken::Curly(crate::lex::Side::Left) => match cond {
            Some(c) => if !spec_cond_finished(c) {
                MStep::Fail(SParseError::UnexpectedToken(tok, pos))
            } else {
                match spec_new_block(st.parsed.blocks, Some(st.block)) {
                    Some((blocks, id)) => MStep::Next {
                        st: SParseState {
                            parsed: SParsed { blocks, ..st.parsed },
                            mode: SMode::Root,
                            ..st
                        },
                        push: Some(SInstrKind::If { condition: c, if_block: id, else_blocks: Seq::empty() }),
                        set_block: Some(id),
                        close: false,
                    },
                    None => MStep::Panic,
                }
            },
            None => to_mode(st, SMode::If(None)),
        },
        SToken::Curly(crate::lex::Side::Right) => MStep::Fail(SParseError::UnexpectedToken(tok, pos)),
        _ => match cond {
            Some(c) => match spec_cond_parse(c, tok, pos) {
                Ok(n) => to_mode(st, SMode::If(Some(n))),
                Err(e) => MStep::Fail(e),
            },
            None => match tok {
                SToken::Ident(name) => match spec_condition_from_str(name) {
                    Some(n) => to_mode(st, SMode::If(Some(n))),
                    None => MStep::Fail(SParseError::UnknownCondition(name, pos)),
                },
                _ => MStep::Fail(SParseError::UnexpectedToken(tok, pos)),
            },
        },
    }
}

/// The addon mode with the given fields.
pub open spec fn addon_mode(
    state: State,
    key: Key,
    id: SValue,
    file_name: SValue,
    kind: Option<AddonKind>,
    url: SValue,
    path: SValue,
    version: SValue,
) -> SMode {
    SMode::Addon { state, key, id, file_name, kind, url, path, version }
}

/// A token in the addon mode.
pub open spec fn spec_addon_step(
    st: SParseState,
    state: State,
    key: Key,
    id: SValue,
    file_name: SValue,
    kind: Option<AddonKind>,
    url: SValue,
    path: SValue,
    version: SValue,
    tok: SToken,
    pos: (nat, nat),
) -> MStep {
    let unexpected = MStep::Fail(SParseError::UnexpectedToken(tok, pos));
    match state {
        State::Id => match spec_parse_arg(tok) {
            Some(v) => to_mode(st, addon_mode(State::FileName, key, v, file_name, kind, url, path, version)),
            None => unexpected,
        },
        State::FileName => if tok == SToken::Paren(crate::lex::Side::Left) {
            MStep::Fail(SParseError::MissingAddonFilename)
        } else {
            match spec_parse_arg(tok) {
                Some(v) => to_mode(st, addon_mode(State::OpenParen, key, id, v, kind, url, path, version)),
                None => unexpected,
            }
        },
        State::OpenParen => if tok == SToken::Paren(crate::lex::Side::Left) {
            to_mode(st, addon_mode(State::Key, key, id, file_name, kind, url, path, version))
        } else {
            unexpected
        },
        State::Key => match tok {
            SToken::Ident(name) => if name == "kind"@ {
                to_mode(st, addon_mode(State::Colon, Key::Kind, id, file_name, kind, url, path, version))
            } else if name == "url"@ {
                to_mode(st, addon_mode(State::Colon, Key::Url, id, file_name, kind, url, path, version))
            } else if name == "path"@ {
                to_mode(st, addon_mode(State::Colon, Key::Path, id, file_name, kind, url, path, version))
            } else if name == "version"@ {
                to_mode(st, addon_mode(State::Colon, Key::Version, id, file_name, kind, url, path, version))
            } else {
                MStep::Fail(SParseError::UnknownAddonKey(name, pos))
            },
            _ => unexpected,
        },
        State::Colon => if tok is Colon {
            to_mode(st, addon_mode(State::Value, key, id, file_name, kind, url, path, version))
        } else {
            unexpected
        },
        State::Value => match tok {
            SToken::Ident(name) => if key is Kind {
                to_mode(st, addon_mode(State::Comma, key, id, file_name, spec_addon_kind(name), url, path, version))
            } else {
                unexpected
            },
            _ => match spec_parse_arg(tok) {
                Some(v) => if key is Url {
                    to_mode(st, addon_mode(State::Comma, key, id, file_name, kind, v, path, version))
                } else if key is Path {
                    to_mode(st, addon_mode(State::Comma, key, id, file_name, kind, url, v, version))
                } else if key is Version {
                    to_mode(st, addon_mode(State::Comma, key, id, file_name, kind, url, path, v))
                } else {
                    unexpected
                },
                None => unexpected,
            },
        },
        State::Comma => if tok is Comma {
            to_mode(st, addon_mode(State::Key, key, id, file_name, kind, url, path, version))
        } else if tok == SToken::Paren(crate::lex::Side::Right) {
            to_mode(st, addon_mode(State::Semicolon, key, id, file_name, kind, url, path, version))
        } else {
            unexpected
        },
        State::Semicolon => if tok is Semicolon {
            finish_instr(
                st,
                SInstrKind::Addon {
                    id,
                    file_name,
                    kind,
                    url,
                    path,
                    version,
                    sha256: SValue::Empty,
                    sha512: SValue::Empty,
                },
            )
        } else {
            unexpected
        },
    }
}

/// Reading a quoted value for an addon's key stores it in that key's field alone: after
/// `path:` it becomes the path, after `url:` the url and after `version:` the version, and
/// every other field of the addon stays as it was.
pub proof fn law_addon_value_fills_its_key(
    st: SParseState,
    key: Key,
    id: SValue,
    file_name: SValue,
    kind: Option<AddonKind>,
    url: SValue,
    path: SValue,
    version: SValue,
    text: Seq<char>,
    pos: (nat, nat),
)
    requires
        st.mode == addon_mode(State::Value, key, id, file_name, kind, url, path, version),
    ensures
        key is Path ==> spec_mode_step(st, SToken::Str(text), pos) == to_mode(
            st,
            addon_mode(State::Comma, key, id, file_name, kind, url, SValue::Constant(text), version),
        ),
        key is Url ==> spec_mode_step(st, SToken::Str(text), pos) == to_mode(
            st,
            addon_mode(State::Comma, key, id, file_name, kind, SValue::Constant(text), path, version),
        ),
        key is Version ==> spec_mode_step(st, SToken::Str(text), pos) == to_mode(
            st,
            addon_mode(State::Comma, key, id, file_name, kind, url, path, SValue::Constant(text)),
        ),
{
}

/// The key names of an addon select their fields: `path` the path, `url` the url,
/// `version` the version and `kind` the kind, leaving the fields as they were.
pub proof fn law_addon_key_names(
    st: SParseState,
    key: Key,
    id: SValue,
    file_name: SValue,
    kind: Option<AddonKind>,
    url: SValue,
    path: SValue,
    version: SValue,
    pos: (nat, nat),
)
    requires
        st.mode == addon_mode(State::Key, key, id, file_name, kind, url, path, version),
    ensures
        spec_mode_step(st, SToken::Ident("path"@), pos) == to_mode(
            st,
            addon_mode(State::Colon, Key::Path, id, file_name, kind, url, path, version),
        ),
        spec_mode_step(st, SToken::Ident("url"@), pos) == to_mode(
            st,
            addon_mode(State::Colon, Key::Url, id, file_name, kind, url, path, version),
        ),
        spec_mode_step(st, SToken::Ident("version"@), pos) == to_mode(
            st,
            addon_mode(State::Colon, Key::Version, id, file_name, kind, url, path, version),
        ),
        spec_mode_step(st, SToken::Ident("kind"@), pos) == to_mode(
            st,
            addon_mode(State::Colon, Key::Kind, id, file_name, kind, url, path, version),
        ),
{
    reveal_strlit("path");
    reveal_strlit("url");
    reveal_strlit("version");
    reveal_strlit("kind");
    assert("path"@[0] == 'p' && "kind"@[0] == 'k' && "url"@[0] == 'u' && "version"@[0] == 'v');
    assert("url"@ != "kind"@);
    assert("path"@ != "kind"@ && "path"@ != "url"@);
    assert("version"@ != "kind"@ && "version"@ != "url"@ && "version"@ != "path"@);
}

/// The semicolon that ends an addon puts the addon into the block with the fields as
/// they were read: its url as the url and its path as the path.
pub proof fn law_addon_finish_keeps_fields(
    st: SParseState,
    key: Key,
    id: SValue,
    file_name: SValue,
    kind: Option<AddonKind>,
    url: SValue,
    path: SValue,
    version: SValue,
    pos: (nat, nat),
)
    requires
        st.mode == addon_mode(State::Semicolon, key, id, file_name, kind, url, path, version),
    ensures
        spec_mode_step(st, SToken::Semicolon, pos) matches MStep::Next { push: Some(k), st: next, .. } && next.mode
            == SMode::Root && k == (SInstrKind::Addon {
            id,
            file_name,
            kind,
            url,
            path,
            version,
            sha256: SValue::Empty,
            sha512: SValue::Empty,
        }),
{
}

/// A token in the require mode.
pub open spec fn spec_require_step(
    st: SParseState,
    groups: Seq<Seq<SPackage>>,
    current_group: Option<Seq<SPackage>>,
    current_package: Option<SPackage>,
    explicit_closed: bool,
    tok: SToken,
    pos: (nat, nat),
) -> MStep {
    let unexpected = MStep::Fail(SParseError::UnexpectedToken(tok, pos));
    match tok {
        SToken::Paren(crate::lex::Side::Left) => if current_group is Some {
            unexpected
        } else {
            to_mode(
                st,
                SMode::Require { groups, current_group: Some(Seq::empty()), current_package, explicit_closed },
            )
        },
        SToken::Paren(crate::lex::Side::Right) => match current_group {
            Some(g) => if !explicit_closed {
                unexpected
            } else {
                to_mode(
                    st,
                    SMode::Require { groups: groups.push(g), current_group: None, current_package, explicit_closed },
                )
            },
            None => unexpected,
        },
        SToken::Angle(crate::lex::Side::Left) => if current_package is Some {
            unexpected
        } else {
            to_mode(
                st,
                SMode::Require {
                    groups,
                    current_group,
                    current_package: Some(SPackage { value: SValue::Empty, explicit: true }),
                    explicit_closed: false,
                },
            )
        },
        SToken::Angle(crate::lex::Side::Right) => if !explicit_closed {
            unexpected
        } else {
            to_mode(st, SMode::Require { groups, current_group, current_package, explicit_closed: true })
        },
        SToken::Semicolon => finish_instr(st, SInstrKind::Require(groups)),
        _ => match spec_parse_arg(tok) {
            Some(v) => {
                let pkg = match current_package {
                    Some(p) => SPackage { value: v, explicit: p.explicit },
                    None => SPackage { value: v, explicit: false },
                };
                match current_group {
                    Some(g) => to_mode(
                        st,
                        SMode::Require {
                            groups,
                            current_group: Some(g.push(pkg)),
                            current_package: None,
                            explicit_closed: true,
                        },
                    ),
                    None => to_mode(
                        st,
                        SMode::Require {
                            groups: groups.push(seq![pkg]),
                            current_group: None,
                            current_package: None,
                            explicit_closed: true,
                        },
                    ),
                }
            },
            None => unexpected,
        },
    }
}

/// What a token does in the current mode.
pub open spec fn spec_mode_step(st: SParseState, tok: SToken, pos: (nat, nat)) -> MStep {
    match st.mode {
        SMode::Root => spec_root_step(st, tok, pos),
        SMode::Routine(name) => spec_routine_step(st, name, tok, pos),
        SMode::If(cond) => spec_if_step(st, cond, tok, pos),
        SMode::Instr(k) => match spec_instr_step(k, tok, pos) {
            Ok((n, done)) => if done {
                finish_instr(st, n)
            } else {
                to_mode(st, SMode::Instr(n))
            },
            Err(e) => MStep::Fail(e),
        },
        SMode::Addon { state, key, id, file_name, kind, url, path, version } => spec_addon_step(
            st,
            state,
            key,
            id,
            file_name,
            kind,
            url,
            path,
            version,
            tok,
            pos,
        ),
        SMode::Require { groups, current_group, current_package, explicit_closed } => spec_require_step(
            st,
            groups,
            current_group,
            current_package,
            explicit_closed,
            tok,
            pos,
        ),
    }
}

/// The bookkeeping after a token: the finished instruction goes into the current block,
/// then the current block changes as the token asked.
pub open spec fn spec_post_step(st: SParseState, push: Option<SInstrKind>, set_block: Option<BlockId>, close: bool) -> SParseState {
    let st1 = match push {
        Some(k) => SParseState {
            parsed: SParsed { blocks: spec_push_instr(st.parsed.blocks, st.block, k), ..st.parsed },
            mode: SMode::Root,
            ..st
        },
        None => st,
    };
    let st2 = match set_block {
        Some(b) => SParseState { block: b, ..st1 },
        None => st1,
    };
    if close {
        SParseState { block: spec_close_block(st2.parsed.blocks, st2.block), ..st2 }
    } else {
        st2
    }
}

/// Parsing from token `i` on, in state `st`.
pub open spec fn spec_parse_run(toks: Seq<(SToken, (nat, nat))>, i: nat, st: SParseState) -> ParseOutcome
    decreases toks.len() - i,
{
    if i >= toks.len() {
        ParseOutcome::Parsed(st.parsed)
    } else {
        match spec_mode_step(st, toks[i as int].0, toks[i as int].1) {
            MStep::Next { st, push, set_block, close } => spec_parse_run(
                toks,
                i + 1,
                spec_post_step(st, push, set_block, close),
            ),
            MStep::Fail(e) => ParseOutcome::Fail(e),
            MStep::Panic => ParseOutcome::Panic,
        }
    }
}

/// The parser before any token.
pub open spec fn spec_parse_init() -> SParseState {
    SParseState { parsed: spec_parsed_init(), block: 1, mode: SMode::Root }
}

/// What parsing a list of tokens gives: whitespace and comments are dropped, then the
/// tokens are read in order.
pub open spec fn spec_parse(toks: Seq<(SToken, (nat, nat))>) -> ParseOutcome {
    spec_parse_run(crate::lex::reduced(toks), 0, spec_parse_init())
}


/// Mode for what we are currently parsing
enum ParseMode {
    Root,
    Routine(Option<String>),
    Instruction(Instruction),
    If(Option<Condition>),
    Addon { state: State, key: Key, id: Value, file_name: Value, filled_keys: FilledKeys },
    Require {
        state: crate::require::State,
        package_groups: Vec<Vec<Package>>,
        current_group: Option<Vec<Package>>,
        current_package: Option<Package>,
        explicit_has_been_closed: bool,
    },
}

impl View for ParseMode {
    type V = SMode;

    closed spec fn view(&self) -> SMode {
        match self {
            ParseMode::Root => SMode::Root,
            ParseMode::Routine(n) => SMode::Routine(
                match n {
                    Some(s) => Some(s@),
                    None => None,
                },
            ),
            ParseMode::Instruction(i) => SMode::Instr(i.kind@),
            ParseMode::If(c) => SMode::If(
                match c {
                    Some(c) => Some(c.kind@),
                    None => None,
                },
            ),
            ParseMode::Addon { state, key, id, file_name, filled_keys } => SMode::Addon {
                state: *state,
                key: *key,
                id: id@,
                file_name: file_name@,
                kind: filled_keys.kind,
                url: filled_keys.url@,
                path: filled_keys.path@,
                version: filled_keys.version@,
            },
            ParseMode::Require {
                package_groups,
                current_group,
                current_package,
                explicit_has_been_closed,
                ..
            } => SMode::Require {
                groups: groups_view(package_groups@),
                current_group: match current_group {
                    Some(g) => Some(group_view(g@)),
                    None => None,
                },
                current_package: match current_package {
                    Some(p) => Some(p@),
                    None => None,
                },
                explicit_closed: *explicit_has_been_closed,
            },
        }
    }
}

/// A parser mode that can be in force between tokens: an instruction being read
/// is one with simple parse rules.
pub open spec fn mode_wf(m: SMode) -> bool {
    m matches SMode::Instr(k) ==> spec_has_simple_parse(k)
}

/// An instruction that the parser can hand out: one with simple parse rules has all of its
/// arguments.
pub open spec fn instr_done(k: SInstrKind) -> bool {
    spec_has_simple_parse(k) ==> spec_instr_finished(k)
}

/// An instruction whose blocks are among the first `n` blocks; the parser makes if
/// instructions without else blocks.
pub open spec fn instr_linked(k: SInstrKind, n: nat) -> bool {
    match k {
        SInstrKind::If { if_block, else_blocks, .. } => 1 <= if_block <= n && else_blocks.len() == 0,
        _ => true,
    }
}

/// Every instruction of every block is complete and names only blocks that exist, and
/// every routine's block exists.
pub open spec fn parsed_done(p: SParsed) -> bool {
    &&& forall|b: int, i: int|
        0 <= b < p.blocks.len() && 0 <= i < p.blocks[b].contents.len() ==> instr_done(
            #[trigger] p.blocks[b].contents[i],
        ) && instr_linked(p.blocks[b].contents[i], p.blocks.len())
    &&& forall|r: Seq<char>| #[trigger] p.routines.contains_key(r) ==> 1 <= p.routines[r] <= p.blocks.len()
}

proof fn lemma_step_push_done(st: SParseState, tok: SToken, pos: (nat, nat))
    requires
        mode_wf(st.mode),
    ensures
        spec_mode_step(st, tok, pos) matches MStep::Next { st: next, push: Some(k), .. } ==> instr_done(k)
            && instr_linked(k, next.parsed.blocks.len()),
        spec_mode_step(st, tok, pos) matches MStep::Next { st: next, .. } ==> next.parsed.blocks.len()
            >= st.parsed.blocks.len() && next.block == st.block || next.parsed.blocks.len()
            == st.parsed.blocks.len() + 1,
        parsed_done(st.parsed) ==> (spec_mode_step(st, tok, pos) matches MStep::Next { st: next, .. }
            ==> parsed_done(next.parsed)),
{
    if parsed_done(st.parsed) {
        match spec_mode_step(st, tok, pos) {
            MStep::Next { st: next, .. } => {
                if next.parsed.blocks.len() != st.parsed.blocks.len() {
                    let nb = next.parsed.blocks;
                    assert(nb == st.parsed.blocks.push(nb.last()));
                    assert forall|b: int, i: int|
                        0 <= b < nb.len() && 0 <= i < nb[b].contents.len() implies instr_done(
                        #[trigger] nb[b].contents[i],
                    ) && instr_linked(nb[b].contents[i], nb.len()) by {
                        if b < st.parsed.blocks.len() {
                            assert(nb[b] == st.parsed.blocks[b]);
                        }
                    }
                }
            },
            _ => {},
        }
    }
}

proof fn lemma_step_keeps_routine(st: SParseState, tok: SToken, pos: (nat, nat), name: Seq<char>)
    requires
        st.parsed.routines.contains_key(name),
    ensures
        spec_mode_step(st, tok, pos) matches MStep::Next { st: next, push, set_block, close }
            ==> spec_post_step(next, push, set_block, close).parsed.routines.contains_key(name),
{
}

proof fn lemma_run_keeps_routine(toks: Seq<(SToken, (nat, nat))>, i: nat, st: SParseState, name: Seq<char>)
    requires
        st.parsed.routines.contains_key(name),
    ensures
        spec_parse_run(toks, i, st) matches ParseOutcome::Parsed(p) ==> p.routines.contains_key(name),
    decreases toks.len() - i,
{
    if i < toks.len() {
        lemma_step_keeps_routine(st, toks[i as int].0, toks[i as int].1, name);
        match spec_mode_step(st, toks[i as int].0, toks[i as int].1) {
            MStep::Next { st: next, push, set_block, close } => {
                lemma_run_keeps_routine(toks, i + 1, spec_post_step(next, push, set_block, close), name);
            },
            _ => {},
        }
    }
}

/// A parse that succeeds keeps the default routine among its routines.
pub proof fn law_parse_keeps_default_routine(toks: Seq<(SToken, (nat, nat))>)
    ensures
        spec_parse(toks) matches ParseOutcome::Parsed(p) ==> p.routines.contains_key(default_routine()),
{
    assert(spec_parse_init().parsed.routines.contains_key(default_routine()));
    lemma_run_keeps_routine(crate::lex::reduced(toks), 0, spec_parse_init(), default_routine());
}

proof fn lemma_post_step_done(st: SParseState, push: Option<SInstrKind>, set_block: Option<BlockId>, close: bool)
    requires
        parsed_done(st.parsed),
        push matches Some(k) ==> instr_done(k) && instr_linked(k, st.parsed.blocks.len()),
    ensures
        parsed_done(spec_post_step(st, push, set_block, close).parsed),
{
    match push {
        Some(k) => {
            let blocks = spec_push_instr(st.parsed.blocks, st.block, k);
            assert forall|b: int, i: int|
                0 <= b < blocks.len() && 0 <= i < blocks[b].contents.len() implies instr_done(
                #[trigger] blocks[b].contents[i],
            ) && instr_linked(blocks[b].contents[i], blocks.len()) by {
                if 1 <= st.block <= st.parsed.blocks.len() && b == st.block - 1 {
                    if i < st.parsed.blocks[b].contents.len() {
                        assert(blocks[b].contents[i] == st.parsed.blocks[b].contents[i]);
                    }
                } else {
                    assert(blocks[b] == st.parsed.blocks[b]);
                }
            }
        },
        None => {},
    }
}

proof fn lemma_instr_from_str_simple(s: Seq<char>)
    ensures
        spec_instr_from_str(s) matches Some(k) ==> spec_has_simple_parse(k),
{
}

proof fn lemma_instr_step_simple(k: SInstrKind, tok: SToken, pos: (nat, nat))
    requires
        spec_has_simple_parse(k),
    ensures
        spec_instr_step(k, tok, pos) matches Ok((n, _)) ==> spec_has_simple_parse(n),
{
}

/// What one token did to the mode, before the bookkeeping.
struct Step {
    block: BlockId,
    mode: ParseMode,
    push: Option<Instruction>,
    set_block: Option<BlockId>,
    close: bool,
}

/// The mathematical value of an optional instruction.
pub open spec fn instr_opt_view(i: Option<Instruction>) -> Option<SInstrKind> {
    match i {
        Some(i) => Some(i.kind@),
        None => None,
    }
}

/// The parser state with the given parts.
pub open spec fn st_of(parsed: SParsed, block: BlockId, mode: SMode) -> SParseState {
    SParseState { parsed, block, mode }
}

/// An executable step result agrees with the mathematical step.
spec fn step_agrees(r: Result<Step, ParseError>, after: SParsed, m: MStep) -> bool {
    match m {
        MStep::Next { st, push, set_block, close } => match r {
            Ok(s) => s.block == st.block && s.mode@ == st.mode && after == st.parsed
                && instr_opt_view(s.push) == push && s.set_block == set_block && s.close == close
                && mode_wf(s.mode@),
            Err(_) => false,
        },
        MStep::Fail(e) => match r {
            Err(err) => err@ == e,
            Ok(_) => false,
        },
        MStep::Panic => false,
    }
}

/// A step to a new mode with no other effect.
fn to(block: BlockId, mode: ParseMode) -> (r: Step)
    ensures
        r.block == block,
        r.mode == mode,
        r.push is None,
        r.set_block is None,
        !r.close,
{
    Step { block, mode, push: None, set_block: None, close: false }
}

/// A step that finishes an instruction.
fn finish(block: BlockId, instr: Instruction) -> (r: Step)
    ensures
        r.block == block,
        r.mode is Root,
        instr_opt_view(r.push) == Some(instr.kind@),
        r.set_block is None,
        !r.close,
{
    Step { block, mode: ParseMode::Root, push: Some(instr), set_block: None, close: false }
}

fn root_step(parsed: &Parsed, block: BlockId, tok: &Token, pos: TextPos) -> (r: Result<
    Step,
    ParseError,
>)
    requires
        !(spec_root_step(st_of(parsed@, block, SMode::Root), tok@, pos@) is Panic),
    ensures
        step_agrees(r, parsed@, spec_root_step(st_of(parsed@, block, SMode::Root), tok@, pos@)),
{
    match tok {
        Token::At => match parsed.get_block(block) {
            Some(b) => {
                if b.parent.is_some() {
                    Err(ParseError::UnexpectedRoutine(pos))
                } else {
                    Ok(to(block, ParseMode::Routine(None)))
                }
            },
            None => Err(ParseError::UnexpectedRoutine(pos)),
        },
        Token::Ident(name) => {
            if str_eq(name.as_str(), "if") {
                Ok(to(block, ParseMode::If(None)))
            } else if str_eq(name.as_str(), "addon") {
                let filled_keys = FilledKeys {
                    kind: None,
                    url: Value::Empty,
                    path: Value::Empty,
                    version: Value::Empty,
                };
                Ok(
                    to(
                        block,
                        ParseMode::Addon {
                            state: State::Id,
                            key: Key::Unset,
                            id: Value::Empty,
                            file_name: Value::Empty,
                            filled_keys,
                        },
                    ),
                )
            } else if str_eq(name.as_str(), "require") {
                let m = ParseMode::Require {
                    state: crate::require::State::Normal,
                    package_groups: Vec::new(),
                    current_group: None,
                    current_package: None,
                    explicit_has_been_closed: true,
                };
                proof {
                    assert(groups_view(Seq::<Vec<Package>>::empty()) =~= Seq::empty());
                }
                Ok(to(block, m))
            } else {
                proof {
                    lemma_instr_from_str_simple(name@);
                }
                match Instruction::from_str(name.as_str(), pos) {
                    Ok(i) => Ok(to(block, ParseMode::Instruction(i))),
                    Err(e) => Err(e),
                }
            }
        },
        Token::Curly(side) => match side {
            Side::Left => Err(unexpected(tok, pos)),
            Side::Right => Ok(
                Step { block, mode: ParseMode::Root, push: None, set_block: None, close: true },
            ),
        },
        _ => Ok(to(block, ParseMode::Root)),
    }
}

/// The mathematical value of an optional name.
pub open spec fn name_opt_view(n: Option<String>) -> Option<Seq<char>> {
    match n {
        Some(s) => Some(s@),
        None => None,
    }
}

/// The mathematical value of an optional condition.
pub open spec fn cond_opt_view(c: Option<Condition>) -> Option<SCondition> {
    match c {
        Some(c) => Some(c.kind@),
        None => None,
    }
}

fn routine_step(
    parsed: &mut Parsed,
    block: BlockId,
    name: Option<String>,
    tok: &Token,
    pos: TextPos,
) -> (r: Result<Step, ParseError>)
    requires
        !(spec_routine_step(
            st_of(old(parsed)@, block, SMode::Routine(name_opt_view(name))),
            name_opt_view(name),
            tok@,
            pos@,
        ) is Panic),
    ensures
        step_agrees(
            r,
            final(parsed)@,
            spec_routine_step(
                st_of(old(parsed)@, block, SMode::Routine(name_opt_view(name))),
                name_opt_view(name),
                tok@,
                pos@,
            ),
        ),
{
    match name {
        Some(name) => match tok {
            Token::Curly(Side::Left) => {
                let id = parsed.new_routine(name.as_str());
                Ok(to(id, ParseMode::Root))
            },
            _ => Err(unexpected(tok, pos)),
        },
        None => match tok {
            Token::Ident(ident) => Ok(to(block, ParseMode::Routine(Some(ident.clone())))),
            _ => Err(unexpected(tok, pos)),
        },
    }
}

fn if_step(
    parsed: &mut Parsed,
    block: BlockId,
    cond: Option<Condition>,
    tok: &Token,
    pos: TextPos,
) -> (r: Result<Step, ParseError>)
    requires
        !(spec_if_step(
            st_of(old(parsed)@, block, SMode::If(cond_opt_view(cond))),
            cond_opt_view(cond),
            tok@,
            pos@,
        ) is Panic),
    ensures
        step_agrees(
            r,
            final(parsed)@,
            spec_if_step(
                st_of(old(parsed)@, block, SMode::If(cond_opt_view(cond))),
                cond_opt_view(cond),
                tok@,
                pos@,
            ),
        ),
{
    match tok {
        Token::Curly(Side::Left) => match cond {
            Some(c) => {
                if !c.kind.is_finished_parsing() {
                    Err(unexpected(tok, pos))
                } else {
                    let id = parsed.new_block(Some(block));
                    let else_blocks: Vec<ElseBlock> = Vec::new();
                    proof {
                        assert(crate::instruction::else_blocks_view(else_blocks@) =~= Seq::empty());
                    }
                    let instr = Instruction::new(
                        InstrKind::If { condition: c, if_block: id, else_blocks },
                    );
                    Ok(
                        Step {
                            block,
                            mode: ParseMode::Root,
                            push: Some(instr),
                            set_block: Some(id),
                            close: false,
                        },
                    )
                }
            },
            None => Ok(to(block, ParseMode::If(None))),
        },
        Token::Curly(Side::Right) => Err(unexpected(tok, pos)),
        _ => match cond {
            Some(c) => {
                let mut c = c;
                match c.parse(tok, pos) {
                    Ok(()) => Ok(to(block, ParseMode::If(Some(c)))),
                    Err(e) => Err(e),
                }
            },
            None => match tok {
                Token::Ident(name) => match ConditionKind::from_str(name.as_str()) {
                    Some(k) => Ok(to(block, ParseMode::If(Some(Condition::new(k))))),
                    None => Err(ParseError::UnknownCondition(name.clone(), pos)),
                },
                _ => Err(unexpected(tok, pos)),
            },
        },
    }
}

fn instr_step(parsed: &Parsed, block: BlockId, instr: Instruction, tok: &Token, pos: TextPos) -> (r:
    Result<Step, ParseError>)
    requires
        spec_has_simple_parse(instr.kind@),
    ensures
        step_agrees(
            r,
            parsed@,
            spec_mode_step(st_of(parsed@, block, SMode::Instr(instr.kind@)), tok@, pos@),
        ),
{
    let mut instr = instr;
    proof {
        lemma_instr_step_simple(instr.kind@, tok@, pos@);
    }
    match instr.parse(tok, pos) {
        Ok(done) => {
            if done {
                Ok(finish(block, instr))
            } else {
                Ok(to(block, ParseMode::Instruction(instr)))
            }
        },
        Err(e) => Err(e),
    }
}

/// The addon mode that the executable fields stand for.
pub open spec fn addon_mode_of(state: State, key: Key, id: Value, file_name: Value, f: FilledKeys) -> SMode {
    addon_mode(state, key, id@, file_name@, f.kind, f.url@, f.path@, f.version@)
}

fn addon_step(
    parsed: &Parsed,
    block: BlockId,
    state: State,
    key: Key,
    id: Value,
    file_name: Value,
    filled_keys: FilledKeys,
    tok: &Token,
    pos: TextPos,
) -> (r: Result<Step, ParseError>)
    ensures
        step_agrees(
            r,
            parsed@,
            spec_mode_step(
                st_of(parsed@, block, addon_mode_of(state, key, id, file_name, filled_keys)),
                tok@,
                pos@,
            ),
        ),
{
    let mut filled_keys = filled_keys;
    proof {
        reveal_strlit("kind");
        reveal_strlit("url");
        reveal_strlit("path");
        reveal_strlit("version");
    }
    match state {
        State::Id => match parse_arg(tok, pos) {
            Ok(v) => Ok(
                to(
                    block,
                    ParseMode::Addon { state: State::FileName, key, id: v, file_name, filled_keys },
                ),
            ),
            Err(e) => Err(e),
        },
        State::FileName => match tok {
            Token::Paren(Side::Left) => Err(ParseError::MissingAddonFilename),
            _ => match parse_arg(tok, pos) {
                Ok(v) => Ok(
                    to(
                        block,
                        ParseMode::Addon { state: State::OpenParen, key, id, file_name: v, filled_keys },
                    ),
                ),
                Err(e) => Err(e),
            },
        },
        State::OpenParen => match tok {
            Token::Paren(Side::Left) => Ok(
                to(block, ParseMode::Addon { state: State::Key, key, id, file_name, filled_keys }),
            ),
            _ => Err(unexpected(tok, pos)),
        },
        State::Key => match tok {
            Token::Ident(name) => {
                let key = if str_eq(name.as_str(), "kind") {
                    Key::Kind
                } else if str_eq(name.as_str(), "url") {
                    Key::Url
                } else if str_eq(name.as_str(), "path") {
                    Key::Path
                } else if str_eq(name.as_str(), "version") {
                    Key::Version
                } else {
                    return Err(ParseError::UnknownAddonKey(name.clone(), pos));
                };
                Ok(to(block, ParseMode::Addon { state: State::Colon, key, id, file_name, filled_keys }))
            },
            _ => Err(unexpected(tok, pos)),
        },
        State::Colon => match tok {
            Token::Colon => Ok(
                to(block, ParseMode::Addon { state: State::Value, key, id, file_name, filled_keys }),
            ),
            _ => Err(unexpected(tok, pos)),
        },
        State::Value => match tok {
            Token::Ident(name) => match key {
                Key::Kind => {
                    filled_keys.kind = AddonKind::parse_from_str(name.as_str());
                    Ok(
                        to(
                            block,
                            ParseMode::Addon { state: State::Comma, key, id, file_name, filled_keys },
                        ),
                    )
                },
                _ => Err(unexpected(tok, pos)),
            },
            _ => match key {
                Key::Url | Key::Path | Key::Version => match parse_arg(tok, pos) {
                    Ok(v) => {
                        match key {
                            Key::Url => filled_keys.url = v,
                            Key::Path => filled_keys.path = v,
                            _ => filled_keys.version = v,
                        }
                        Ok(
                            to(
                                block,
                                ParseMode::Addon { state: State::Comma, key, id, file_name, filled_keys },
                            ),
                        )
                    },
                    Err(e) => Err(e),
                },
                _ => Err(unexpected(tok, pos)),
            },
        },
        State::Comma => match tok {
            Token::Comma => Ok(
                to(block, ParseMode::Addon { state: State::Key, key, id, file_name, filled_keys }),
            ),
            Token::Paren(Side::Right) => Ok(
                to(block, ParseMode::Addon { state: State::Semicolon, key, id, file_name, filled_keys }),
            ),
            _ => Err(unexpected(tok, pos)),
        },
        State::Semicolon => match tok {
            Token::Semicolon => {
                let instr = Instruction::new(
                    InstrKind::Addon {
                        id,
                        file_name,
                        kind: filled_keys.kind,
                        url: filled_keys.url,
                        path: filled_keys.path,
                        version: filled_keys.version,
                        hashes: AddonHashes { sha256: Value::Empty, sha512: Value::Empty },
                    },
                );
                Ok(finish(block, instr))
            },
            _ => Err(unexpected(tok, pos)),
        },
    }
}

/// The require mode that the executable fields stand for.
pub open spec fn require_mode_of(
    groups: Vec<Vec<Package>>,
    current_group: Option<Vec<Package>>,
    current_package: Option<Package>,
    explicit_closed: bool,
) -> SMode {
    SMode::Require {
        groups: groups_view(groups@),
        current_group: match current_group {
            Some(g) => Some(group_view(g@)),
            None => None,
        },
        current_package: match current_package {
            Some(p) => Some(p@),
            None => None,
        },
        explicit_closed,
    }
}

proof fn lemma_group_push(v: Seq<Package>, p: Package)
    ensures
        group_view(v.push(p)) == group_view(v).push(p@),
{
    assert(group_view(v.push(p)) =~= group_view(v).push(p@));
}

proof fn lemma_groups_push(v: Seq<Vec<Package>>, g: Vec<Package>)
    ensures
        groups_view(v.push(g)) == groups_view(v).push(group_view(g@)),
{
    assert(groups_view(v.push(g)) =~= groups_view(v).push(group_view(g@)));
}

fn require_step(
    parsed: &Parsed,
    block: BlockId,
    package_groups: Vec<Vec<Package>>,
    current_group: Option<Vec<Package>>,
    current_package: Option<Package>,
    explicit_has_been_closed: bool,
    tok: &Token,
    pos: TextPos,
) -> (r: Result<Step, ParseError>)
    ensures
        step_agrees(
            r,
            parsed@,
            spec_mode_step(
                st_of(
                    parsed@,
                    block,
                    require_mode_of(package_groups, current_group, current_package, explicit_has_been_closed),
                ),
                tok@,
                pos@,
            ),
        ),
{
    let mut package_groups = package_groups;
    match tok {
        Token::Paren(Side::Left) => {
            if current_group.is_some() {
                Err(unexpected(tok, pos))
            } else {
                let g: Vec<Package> = Vec::new();
                proof {
                    assert(group_view(g@) =~= Seq::empty());
                }
                Ok(
                    to(
                        block,
                        ParseMode::Require {
                            state: crate::require::State::Normal,
                            package_groups,
                            current_group: Some(g),
                            current_package,
                            explicit_has_been_closed,
                        },
                    ),
                )
            }
        },
        Token::Paren(Side::Right) => match current_group {
            Some(g) => {
                if !explicit_has_been_closed {
                    Err(unexpected(tok, pos))
                } else {
                    proof {
                        lemma_groups_push(package_groups@, g);
                    }
                    package_groups.push(g);
                    Ok(
                        to(
                            block,
                            ParseMode::Require {
                                state: crate::require::State::Normal,
                                package_groups,
                                current_group: None,
                                current_package,
                                explicit_has_been_closed,
                            },
                        ),
                    )
                }
            },
            None => Err(unexpected(tok, pos)),
        },
        Token::Angle(Side::Left) => {
            if current_package.is_some() {
                Err(unexpected(tok, pos))
            } else {
                Ok(
                    to(
                        block,
                        ParseMode::Require {
                            state: crate::require::State::Normal,
                            package_groups,
                            current_group,
                            current_package: Some(Package { value: Value::Empty, explicit: true }),
                            explicit_has_been_closed: false,
                        },
                    ),
                )
            }
        },
        Token::Angle(Side::Right) => {
            if !explicit_has_been_closed {
                Err(unexpected(tok, pos))
            } else {
                Ok(
                    to(
                        block,
                        ParseMode::Require {
                            state: crate::require::State::Normal,
                            package_groups,
                            current_group,
                            current_package,
                            explicit_has_been_closed: true,
                        },
                    ),
                )
            }
        },
        Token::Semicolon => Ok(finish(block, Instruction::new(InstrKind::Require(package_groups)))),
        _ => match parse_arg(tok, pos) {
            Ok(v) => {
                let package = match current_package {
                    Some(p) => Package { value: v, explicit: p.explicit },
                    None => Package { value: v, explicit: false },
                };
                let current_group = match current_group {
                    Some(g) => {
                        let mut g = g;
                        proof {
                            lemma_group_push(g@, package);
                        }
                        g.push(package);
                        Some(g)
                    },
                    None => {
                        let mut single: Vec<Package> = Vec::new();
                        proof {
                            lemma_group_push(single@, package);
                            assert(group_view(single@) =~= Seq::empty());
                        }
                        single.push(package);
                        proof {
                            lemma_groups_push(package_groups@, single);
                        }
                        package_groups.push(single);
                        None
                    },
                };
                Ok(
                    to(
                        block,
                        ParseMode::Require {
                            state: crate::require::State::Normal,
                            package_groups,
                            current_group,
                            current_package: None,
                            explicit_has_been_closed: true,
                        },
                    ),
                )
            },
            Err(e) => Err(e),
        },
    }
}

/// Data used for parsing
struct ParseData {
    parsed: Parsed,
    block: BlockId,
    mode: ParseMode,
}

impl View for ParseData {
    type V = SParseState;

    closed spec fn view(&self) -> SParseState {
        SParseState { parsed: self.parsed@, block: self.block, mode: self.mode@ }
    }
}

impl ParseData {
    fn new() -> (r: ParseData)
        ensures
            r@ == spec_parse_init(),
    {
        ParseData { parsed: Parsed::new(), block: 1, mode: ParseMode::Root }
    }

    /// Whether reading the token would make the parser panic: a routine marker outside
    /// any block, or a new block whose ID would not fit
    fn step_panics(&self, tok: &Token, pos: TextPos) -> (r: bool)
        ensures
            r == (spec_mode_step(self@, tok@, pos@) is Panic),
    {
        let n = self.parsed.block_count();
        match &self.mode {
            ParseMode::Root => match tok {
                Token::At => self.parsed.get_block(self.block).is_none(),
                _ => false,
            },
            ParseMode::Routine(Some(_)) => match tok {
                Token::Curly(crate::lex::Side::Left) => n >= 65535,
                _ => false,
            },
            ParseMode::If(Some(c)) => match tok {
                Token::Curly(crate::lex::Side::Left) => c.kind.is_finished_parsing() && n >= 65535,
                _ => false,
            },
            _ => false,
        }
    }

    /// Reads one token: the step of the current mode, then the bookkeeping of
    /// instructions and blocks.
    fn step(&mut self, tok: &Token, pos: TextPos) -> (r: Result<(), ParseError>)
        requires
            mode_wf(old(self)@.mode),
            !(spec_mode_step(old(self)@, tok@, pos@) is Panic),
        ensures
            match spec_mode_step(old(self)@, tok@, pos@) {
                MStep::Next { st, push, set_block, close } => r is Ok && final(self)@
                    == spec_post_step(st, push, set_block, close) && mode_wf(final(self)@.mode)
                    && (parsed_done(old(self)@.parsed) ==> parsed_done(final(self)@.parsed)),
                MStep::Fail(e) => r matches Err(err) && err@ == e,
                MStep::Panic => false,
            },
    {
        let ghost before = self@;
        proof {
            lemma_step_push_done(before, tok@, pos@);
            match spec_mode_step(before, tok@, pos@) {
                MStep::Next { st, push, set_block, close } => {
                    if parsed_done(before.parsed) {
                        lemma_post_step_done(st, push, set_block, close);
                    }
                },
                _ => {},
            }
        }
        let mut mode = ParseMode::Root;
        std::mem::swap(&mut mode, &mut self.mode);
        let block = self.block;
        let r = match mode {
            ParseMode::Root => root_step(&self.parsed, block, tok, pos),
            ParseMode::Routine(name) => routine_step(&mut self.parsed, block, name, tok, pos),
            ParseMode::If(cond) => if_step(&mut self.parsed, block, cond, tok, pos),
            ParseMode::Instruction(instr) => instr_step(&self.parsed, block, instr, tok, pos),
            ParseMode::Addon { state, key, id, file_name, filled_keys } => addon_step(
                &self.parsed,
                block,
                state,
                key,
                id,
                file_name,
                filled_keys,
                tok,
                pos,
            ),
            ParseMode::Require {
                package_groups,
                current_group,
                current_package,
                explicit_has_been_closed,
                ..
            } => require_step(
                &self.parsed,
                block,
                package_groups,
                current_group,
                current_package,
                explicit_has_been_closed,
                tok,
                pos,
            ),
        };
        match r {
            Ok(s) => {
                self.block = s.block;
                self.mode = s.mode;
                match s.push {
                    Some(instr) => {
                        self.parsed.push_instr(self.block, instr);
                        self.mode = ParseMode::Root;
                    },
                    None => {},
                }
                match s.set_block {
                    Some(b) => {
                        self.block = b;
                    },
                    None => {},
                }
                if s.close {
                    self.block = self.parsed.close_block(self.block);
                }
                Ok(())
            },
            Err(e) => Err(e),
        }
    }
}

/// Parse a list of tokens
pub fn parse(tokens: &[(Token, TextPos)]) -> (r: Result<Parsed, ParseError>)
    requires
        !(spec_parse(tokens_view(tokens@)) is Panic),
    ensures
        match spec_parse(tokens_view(tokens@)) {
            ParseOutcome::Parsed(p) => r matches Ok(parsed) && parsed@ == p,
            ParseOutcome::Fail(e) => r matches Err(err) && err@ == e,
            ParseOutcome::Panic => false,
        },
        r matches Ok(parsed) ==> parsed_done(parsed@),
        r matches Ok(parsed) ==> parsed@.routines.contains_key(default_routine()),
{
    match try_parse(tokens) {
        Some(r) => r,
        None => vstd::pervasive::unreached(),
    }
}

/// Parse a list of tokens where parsing them does not panic; `None` where it would
pub fn try_parse(tokens: &[(Token, TextPos)]) -> (r: Option<Result<Parsed, ParseError>>)
    ensures
        match spec_parse(tokens_view(tokens@)) {
            ParseOutcome::Parsed(p) => r matches Some(Ok(parsed)) && parsed@ == p,
            ParseOutcome::Fail(e) => r matches Some(Err(err)) && err@ == e,
            ParseOutcome::Panic => r is None,
        },
        r matches Some(Ok(parsed)) ==> parsed_done(parsed@),
        r matches Some(Ok(parsed)) ==> parsed@.routines.contains_key(default_routine()),
{
    proof {
        law_parse_keeps_default_routine(tokens_view(tokens@));
    }
    let toks = reduce_tokens(tokens);
    let ghost ts = tokens_view(toks@);
    let mut prs = ParseData::new();
    proof {
        assert(parsed_done(prs@.parsed));
    }
    let mut i: usize = 0;
    while i < toks.len()
        invariant
            i <= toks@.len(),
            ts == tokens_view(toks@),
            ts == crate::lex::reduced(tokens_view(tokens@)),
            mode_wf(prs@.mode),
            parsed_done(prs@.parsed),
            spec_parse_run(ts, i as nat, prs@) == spec_parse(tokens_view(tokens@)),
        decreases toks@.len() - i,
    {
        let (tok, pos) = &toks[i];
        proof {
            assert(ts[i as int] == (tok@, pos@));
        }
        if prs.step_panics(tok, *pos) {
            return None;
        }
        match prs.step(tok, *pos) {
            Ok(()) => {},
            Err(e) => {
                return Some(Err(e));
            },
        }
        i = i + 1;
    }
    Some(Ok(prs.parsed))
}

/// Why a package script could not be read
#[derive(Debug)]
pub enum ScriptError {
    /// Lexing failed
    Lex(LexError),
    /// Parsing failed
    Parse(ParseError),
}

/// The outcome of lexing and parsing a script.
pub enum ScriptOutcome {
    Parsed(SParsed),
    LexFail(SLexError),
    ParseFail(SParseError),
    Panic,
}

/// What lexing and then parsing a script's text gives.
pub open spec fn spec_lex_and_parse(text: &str) -> ScriptOutcome {
    match spec_lex(text) {
        LexOutcome::Tokens(ts) => match spec_parse(ts) {
            ParseOutcome::Parsed(p) => ScriptOutcome::Parsed(p),
            ParseOutcome::Fail(e) => ScriptOutcome::ParseFail(e),
            ParseOutcome::Panic => ScriptOutcome::Panic,
        },
        LexOutcome::Fail(e) => ScriptOutcome::LexFail(e),
        LexOutcome::Panic => ScriptOutcome::Panic,
    }
}

/// Lexes the text of a script, then parses its tokens
pub fn lex_and_parse(text: &str) -> (r: Result<Parsed, ScriptError>)
    requires
        text.spec_bytes().len() < usize::MAX,
        !(spec_lex_and_parse(text) is Panic),
    ensures
        match spec_lex_and_parse(text) {
            ScriptOutcome::Parsed(p) => r matches Ok(parsed) && parsed@ == p,
            ScriptOutcome::LexFail(e) => r matches Err(ScriptError::Lex(err)) && err@ == e,
            ScriptOutcome::ParseFail(e) => r matches Err(ScriptError::Parse(err)) && err@ == e,
            ScriptOutcome::Panic => false,
        },
        r matches Ok(parsed) ==> parsed_done(parsed@),
        r matches Ok(parsed) ==> parsed@.routines.contains_key(default_routine()),
{
    let tokens = match lex(text) {
        Ok(t) => t,
        Err(e) => {
            return Err(ScriptError::Lex(e));
        },
    };
    match parse(tokens.as_slice()) {
        Ok(p) => Ok(p),
        Err(e) => Err(ScriptError::Parse(e)),
    }
}

/// Lexes and parses the text of a script where neither step panics; `None` where one would
pub fn try_lex_and_parse(text: &str) -> (r: Option<Result<Parsed, ScriptError>>)
    requires
        text.spec_bytes().len() < usize::MAX,
    ensures
        match spec_lex_and_parse(text) {
            ScriptOutcome::Parsed(p) => r matches Some(Ok(parsed)) && parsed@ == p,
            ScriptOutcome::LexFail(e) => r matches Some(Err(ScriptError::Lex(err))) && err@ == e,
            ScriptOutcome::ParseFail(e) => r matches Some(Err(ScriptError::Parse(err))) && err@ == e,
            ScriptOutcome::Panic => r is None,
        },
        r matches Some(Ok(parsed)) ==> parsed_done(parsed@),
        r matches Some(Ok(parsed)) ==> parsed@.routines.contains_key(default_routine()),
{
    let tokens = match try_lex(text) {
        Some(Ok(t)) => t,
        Some(Err(e)) => {
            return Some(Err(ScriptError::Lex(e)));
        },
        None => {
            return None;
        },
    };
    match try_parse(tokens.as_slice()) {
        Some(Ok(p)) => Some(Ok(p)),
        Some(Err(e)) => Some(Err(ScriptError::Parse(e))),
        None => None,
    }
}

} // verus!
