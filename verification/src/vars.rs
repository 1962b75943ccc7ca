//! Things related to script variables

use vstd::prelude::*;
use vstd::hash_map::StringHashMap;

use crate::text::{chars_of, owned, str_eq, string_push, string_push_str};

verus! {

/// Constant var for the Minecraft version
pub const CONSTANT_VAR_MC_VERSION: &'static str = "MINECRAFT_VERSION";

/// The name of the reserved constant variable for the Minecraft version.
pub open spec fn mc_version_var() -> Seq<char> {
    seq!['M', 'I', 'N', 'E', 'C', 'R', 'A', 'F', 'T', '_', 'V', 'E', 'R', 'S', 'I', 'O', 'N']
}

/// The name of the reserved constant variable, as an owned string.
pub fn mc_version_var_name() -> (r: String)
    ensures
        r@ == mc_version_var(),
{
    let r = owned("MINECRAFT_VERSION");
    proof {
        reveal_strlit("MINECRAFT_VERSION");
        assert("MINECRAFT_VERSION"@ =~= mc_version_var());
    }
    r
}

/// Whether a variable name is reserved for a constant.
pub open spec fn spec_is_reserved_constant_var(var: Seq<char>) -> bool {
    var == mc_version_var()
}

/// Check if a variable identifier is a reserved constant variable
pub fn is_reserved_constant_var(var: &str) -> (r: bool)
    ensures
        r == spec_is_reserved_constant_var(var@),
{
    let r = str_eq(var, "MINECRAFT_VERSION");
    proof {
        reveal_strlit("MINECRAFT_VERSION");
        assert("MINECRAFT_VERSION"@ =~= mc_version_var());
    }
    r
}

/// Struct for reserved constant variables
pub struct ReservedConstantVariables<'a> {
    pub mc_version: &'a str,
}

/// Argument to a command that could be a literal or a variable
#[derive(Debug, Clone, PartialEq, Eq)]
pub enum Value {
    Empty,
    Constant(String),
    Var(String),
}

/// The mathematical value of a `Value`.
pub enum SValue {
    Empty,
    Constant(Seq<char>),
    Var(Seq<char>),
}

impl View for Value {
    type V = SValue;

    open spec fn view(&self) -> SValue {
        match self {
            Value::Empty => SValue::Empty,
            Value::Constant(s) => SValue::Constant(s@),
            Value::Var(s) => SValue::Var(s@),
        }
    }
}

/// Why a value could not be read.
#[derive(Debug, Clone, PartialEq, Eq)]
pub enum ValueError {
    /// The value is empty
    Empty,
    /// The variable with this name is not defined
    Undefined(String),
}

/// Why a variable could not be set.
#[derive(Debug, Clone, PartialEq, Eq)]
pub enum SetVarError {
    /// Tried to set the value of a reserved constant variable
    ReservedConstant,
}

/// An trait that can be used to get and set variables used in script evaluation
pub trait VariableStore {
    /// The variables that the store holds, by name.
    spec fn vars(&self) -> Map<Seq<char>, Seq<char>>;

    /// Get the value of a variable in the store
    fn get_var(&self, var: &str) -> (r: Option<&str>)
        ensures
            match r {
                Some(v) => self.vars().contains_key(var@) && v@ == self.vars()[var@],
                None => !self.vars().contains_key(var@),
            },
    ;

    /// Set the value of a variable in the store
    fn set_var(&mut self, var: String, val: String)
        ensures
            final(self).vars() == old(self).vars().insert(var@, val@),
    ;

    /// Tries to set a variable, but checks if the variable is a constant variable.
    /// This should be used for your 'set' instruction evaluation
    fn try_set_var(&mut self, var: String, val: String) -> (r: Result<(), SetVarError>)
        ensures
            spec_is_reserved_constant_var(var@) ==> r is Err && final(self).vars() == old(
                self,
            ).vars(),
            !spec_is_reserved_constant_var(var@) ==> r is Ok && final(self).vars() == old(
                self,
            ).vars().insert(var@, val@),
    {
        if is_reserved_constant_var(var.as_str()) {
            return Err(SetVarError::ReservedConstant);
        }
        self.set_var(var, val);
        Ok(())
    }

    /// Set the values of the reserved constants. Should be run before evaluation
    fn set_reserved_constants(&mut self, constants: ReservedConstantVariables)
        ensures
            final(self).vars() == old(self).vars().insert(
                mc_version_var(),
                constants.mc_version@,
            ),
    {
        self.set_var(mc_version_var_name(), owned(constants.mc_version));
    }

    /// Check if the store contains a value
    fn var_exists(&self, var: &str) -> (r: bool)
        ensures
            r == self.vars().contains_key(var@),
    {
        self.get_var(var).is_some()
    }
}

/// HashMap implementation of a VariableStore
pub struct HashMapVariableStore(StringHashMap<String>);

impl HashMapVariableStore {
    pub fn new() -> (r: Self)
        ensures
            r.vars() == Map::<Seq<char>, Seq<char>>::empty(),
    {
        let r = HashMapVariableStore(StringHashMap::new());
        proof {
            assert(r.vars() =~= Map::<Seq<char>, Seq<char>>::empty());
        }
        r
    }
}

impl Default for HashMapVariableStore {
    fn default() -> (r: Self)
        ensures
            r.vars() == Map::<Seq<char>, Seq<char>>::empty(),
    {
        Self::new()
    }
}

impl VariableStore for HashMapVariableStore {
    closed spec fn vars(&self) -> Map<Seq<char>, Seq<char>> {
        self.0@.map_values(|v: String| v@)
    }

    fn get_var(&self, var: &str) -> (r: Option<&str>) {
        match self.0.get(var) {
            Some(v) => Some(v.as_str()),
            None => None,
        }
    }

    fn set_var(&mut self, var: String, val: String) {
        let ghost k = var@;
        let ghost v = val@;
        self.0.insert(var, val);
        proof {
            assert(self.vars() =~= old(self).vars().insert(k, v));
        }
    }

    fn var_exists(&self, var: &str) -> (r: bool) {
        self.0.contains_key(var)
    }
}

/// The parser state of token substitution.
#[derive(PartialEq, Eq, Structural, Copy, Clone)]
pub enum SubstState {
    Escaped,
    Dollar,
    OpenBracket,
    Name,
}

/// Substitution from character index `i` on, in state `st`, with the name read so far
/// and the output so far.
pub open spec fn subst_run(
    cs: Seq<char>,
    i: nat,
    st: SubstState,
    name: Seq<char>,
    out: Seq<char>,
    vars: Map<Seq<char>, Seq<char>>,
) -> Seq<char>
    decreases cs.len() - i,
{
    if i >= cs.len() {
        out
    } else {
        let c = cs[i as int];
        match st {
            SubstState::Escaped => subst_run(cs, i + 1, SubstState::Dollar, name, out.push(c), vars),
            SubstState::Dollar => if c == '$' {
                subst_run(cs, i + 1, SubstState::OpenBracket, name, out, vars)
            } else if c == '\\' {
                subst_run(cs, i + 1, SubstState::Escaped, name, out, vars)
            } else {
                subst_run(cs, i + 1, SubstState::Dollar, name, out.push(c), vars)
            },
            SubstState::OpenBracket => if c == '{' {
                subst_run(cs, i + 1, SubstState::Name, name, out, vars)
            } else {
                subst_run(cs, i + 1, SubstState::Dollar, name, out.push(c), vars)
            },
            SubstState::Name => if c == '}' {
                let out2 = if vars.contains_key(name) {
                    out + vars[name]
                } else {
                    out
                };
                subst_run(cs, i + 1, SubstState::Dollar, Seq::empty(), out2, vars)
            } else {
                subst_run(cs, i + 1, SubstState::Name, name.push(c), out, vars)
            },
        }
    }
}

/// The text of `s` with each `${name}` replaced by the value of the variable `name`
/// (or by nothing where it is not defined); a backslash keeps the next character as it
/// is, and a `$` that is not followed by `{` is dropped.
pub open spec fn spec_substitute(s: Seq<char>, vars: Map<Seq<char>, Seq<char>>) -> Seq<char> {
    subst_run(s, 0, SubstState::Dollar, Seq::empty(), Seq::empty(), vars)
}

/// The value that a token with the given name is replaced by.
pub open spec fn token_value(name: Seq<char>, vars: Map<Seq<char>, Seq<char>>) -> Seq<char> {
    if vars.contains_key(name) {
        vars[name]
    } else {
        Seq::empty()
    }
}

proof fn lemma_subst_plain(
    cs: Seq<char>,
    i: nat,
    k: nat,
    name: Seq<char>,
    out: Seq<char>,
    vars: Map<Seq<char>, Seq<char>>,
)
    requires
        i + k <= cs.len(),
        forall|j: int| i <= j < i + k ==> cs[j] != '$' && cs[j] != '\\',
    ensures
        subst_run(cs, i, SubstState::Dollar, name, out, vars) == subst_run(
            cs,
            i + k,
            SubstState::Dollar,
            name,
            out + cs.subrange(i as int, (i + k) as int),
            vars,
        ),
    decreases k,
{
    if k == 0 {
        assert(out + cs.subrange(i as int, i as int) =~= out);
    } else {
        lemma_subst_plain(cs, i + 1, (k - 1) as nat, name, out.push(cs[i as int]), vars);
        assert(out.push(cs[i as int]) + cs.subrange((i + 1) as int, (i + k) as int) =~= out + cs.subrange(i as int, (i + k) as int));
    }
}

proof fn lemma_subst_name(
    cs: Seq<char>,
    i: nat,
    k: nat,
    name: Seq<char>,
    out: Seq<char>,
    vars: Map<Seq<char>, Seq<char>>,
)
    requires
        i + k <= cs.len(),
        forall|j: int| i <= j < i + k ==> cs[j] != '}',
    ensures
        subst_run(cs, i, SubstState::Name, name, out, vars) == subst_run(
            cs,
            i + k,
            SubstState::Name,
            name + cs.subrange(i as int, (i + k) as int),
            out,
            vars,
        ),
    decreases k,
{
    if k == 0 {
        assert(name + cs.subrange(i as int, i as int) =~= name);
    } else {
        lemma_subst_name(cs, i + 1, (k - 1) as nat, name.push(cs[i as int]), out, vars);
        assert(name.push(cs[i as int]) + cs.subrange((i + 1) as int, (i + k) as int) =~= name + cs.subrange(i as int, (i + k) as int));
    }
}

proof fn lemma_subst_out_prefix(
    cs: Seq<char>,
    i: nat,
    st: SubstState,
    name: Seq<char>,
    a: Seq<char>,
    b: Seq<char>,
    vars: Map<Seq<char>, Seq<char>>,
)
    ensures
        subst_run(cs, i, st, name, a + b, vars) == a + subst_run(cs, i, st, name, b, vars),
    decreases cs.len() - i,
{
    if i < cs.len() {
        let c = cs[i as int];
        assert((a + b).push(c) =~= a + b.push(c));
        lemma_subst_out_prefix(cs, i + 1, SubstState::Dollar, name, a, b.push(c), vars);
        lemma_subst_out_prefix(cs, i + 1, SubstState::Dollar, name, a, b, vars);
        lemma_subst_out_prefix(cs, i + 1, SubstState::OpenBracket, name, a, b, vars);
        lemma_subst_out_prefix(cs, i + 1, SubstState::Escaped, name, a, b, vars);
        lemma_subst_out_prefix(cs, i + 1, SubstState::Name, name, a, b, vars);
        lemma_subst_out_prefix(cs, i + 1, SubstState::Name, name.push(c), a, b, vars);
        if vars.contains_key(name) {
            assert((a + b) + vars[name] =~= a + (b + vars[name]));
            lemma_subst_out_prefix(cs, i + 1, SubstState::Dollar, Seq::empty(), a, b + vars[name], vars);
        } else {
            lemma_subst_out_prefix(cs, i + 1, SubstState::Dollar, Seq::empty(), a, b, vars);
        }
    } else {
    }
}

proof fn lemma_subst_skip(
    cs: Seq<char>,
    i: nat,
    j: nat,
    st: SubstState,
    name: Seq<char>,
    out: Seq<char>,
    vars: Map<Seq<char>, Seq<char>>,
)
    requires
        i <= cs.len(),
    ensures
        subst_run(cs, i + j, st, name, out, vars) == subst_run(cs.subrange(i as int, cs.len() as int), j, st, name, out, vars),
    decreases cs.len() - i - j,
{
    let rest = cs.subrange(i as int, cs.len() as int);
    if i + j < cs.len() {
        let c = cs[(i + j) as int];
        assert(rest[j as int] == c);
        lemma_subst_skip(cs, i, j + 1, SubstState::Dollar, name, out.push(c), vars);
        lemma_subst_skip(cs, i, j + 1, SubstState::Dollar, name, out, vars);
        lemma_subst_skip(cs, i, j + 1, SubstState::OpenBracket, name, out, vars);
        lemma_subst_skip(cs, i, j + 1, SubstState::Escaped, name, out, vars);
        lemma_subst_skip(cs, i, j + 1, SubstState::Name, name.push(c), out, vars);
        lemma_subst_skip(cs, i, j + 1, SubstState::Name, name, out, vars);
        lemma_subst_skip(
            cs,
            i,
            j + 1,
            SubstState::Dollar,
            Seq::empty(),
            if vars.contains_key(name) { out + vars[name] } else { out },
            vars,
        );
    }
}

/// Substitution goes through a text in order: plain text without `$` or backslashes is
/// kept, and a following token `${name}` is replaced by the variable's value, or by
/// nothing where the variable is not defined, before the rest is substituted.
pub proof fn law_substitution_replaces_tokens(
    plain: Seq<char>,
    name: Seq<char>,
    rest: Seq<char>,
    vars: Map<Seq<char>, Seq<char>>,
)
    requires
        forall|j: int| 0 <= j < plain.len() ==> plain[j] != '$' && plain[j] != '\\',
        forall|j: int| 0 <= j < name.len() ==> name[j] != '}',
    ensures
        spec_substitute(plain + seq!['$', '{'] + name + seq!['}'] + rest, vars) == plain + token_value(
            name,
            vars,
        ) + spec_substitute(rest, vars),
{
    let cs = plain + seq!['$', '{'] + name + seq!['}'] + rest;
    let p: int = plain.len() as int;
    let n: int = name.len() as int;
    assert(cs.subrange(0, p as int) =~= plain);
    assert(cs.subrange(p + 2, p + 2 + n) =~= name);
    assert(cs.subrange(p + 3 + n, cs.len() as int) =~= rest);
    assert(cs[p as int] == '$');
    assert(cs[p + 1] == '{');
    assert(cs[p + 2 + n] == '}');
    lemma_subst_plain(cs, 0, p as nat, Seq::empty(), Seq::empty(), vars);
    assert(Seq::<char>::empty() + plain =~= plain);
    assert(spec_substitute(cs, vars) == subst_run(cs, p as nat, SubstState::Dollar, Seq::empty(), plain, vars));
    assert(subst_run(cs, p as nat, SubstState::Dollar, Seq::empty(), plain, vars) == subst_run(
        cs,
        (p + 1) as nat,
        SubstState::OpenBracket,
        Seq::empty(),
        plain,
        vars,
    ));
    assert(subst_run(cs, (p + 1) as nat, SubstState::OpenBracket, Seq::empty(), plain, vars) == subst_run(
        cs,
        (p + 2) as nat,
        SubstState::Name,
        Seq::empty(),
        plain,
        vars,
    ));
    lemma_subst_name(cs, (p + 2) as nat, n as nat, Seq::empty(), plain, vars);
    assert(Seq::<char>::empty() + name =~= name);
    let v = token_value(name, vars);
    assert(subst_run(cs, (p + 2 + n) as nat, SubstState::Name, name, plain, vars) == subst_run(
        cs,
        (p + 3 + n) as nat,
        SubstState::Dollar,
        Seq::empty(),
        plain + v,
        vars,
    )) by {
        if !vars.contains_key(name) {
            assert(plain + v =~= plain);
        }
    }
    lemma_subst_out_prefix(cs, (p + 3 + n) as nat, SubstState::Dollar, Seq::empty(), plain + v, Seq::empty(), vars);
    assert((plain + v) + Seq::<char>::empty() =~= plain + v);
    lemma_subst_skip(cs, (p + 3 + n) as nat, 0, SubstState::Dollar, Seq::empty(), Seq::empty(), vars);
    assert(subst_run(cs, (p + 3 + n) as nat, SubstState::Dollar, Seq::empty(), Seq::empty(), vars) == spec_substitute(
        rest,
        vars,
    ));
}

/// The text that a value stands for with the given variables.
pub open spec fn spec_value_get(v: SValue, vars: Map<Seq<char>, Seq<char>>) -> Option<Seq<char>> {
    match v {
        SValue::Empty => None,
        SValue::Constant(s) => Some(spec_substitute(s, vars)),
        SValue::Var(name) => if vars.contains_key(name) {
            Some(vars[name])
        } else {
            None
        },
    }
}

impl Value {
    /// Replace substitution tokens in a string with variable values
    pub fn substitute_tokens<V: VariableStore>(string: &str, vars: &V) -> (r: String)
        ensures
            r@ == spec_substitute(string@, vars.vars()),
    {
        let cs = chars_of(string);
        let mut state = SubstState::Dollar;
        let mut out = String::new();
        let mut name: Vec<char> = Vec::new();
        let mut i: usize = 0;
        while i < cs.len()
            invariant
                cs@ == string@,
                i <= cs@.len(),
                spec_substitute(string@, vars.vars()) == subst_run(
                    cs@,
                    i as nat,
                    state,
                    name@,
                    out@,
                    vars.vars(),
                ),
            decreases cs@.len() - i,
        {
            let c = cs[i];
            state = match state {
                SubstState::Escaped => {
                    string_push(&mut out, c);
                    SubstState::Dollar
                },
                SubstState::Dollar => {
                    if c == '$' {
                        SubstState::OpenBracket
                    } else if c == '\\' {
                        SubstState::Escaped
                    } else {
                        string_push(&mut out, c);
                        state
                    }
                },
                SubstState::OpenBracket => {
                    if c == '{' {
                        SubstState::Name
                    } else {
                        string_push(&mut out, c);
                        SubstState::Dollar
                    }
                },
                SubstState::Name => {
                    if c == '}' {
                        let key = crate::text::string_from_chars(name.as_slice());
                        if let Some(var) = vars.get_var(key.as_str()) {
                            string_push_str(&mut out, var);
                        }
                        name = Vec::new();
                        SubstState::Dollar
                    } else {
                        name.push(c);
                        state
                    }
                },
            };
            i = i + 1;
        }
        out
    }

    /// Obtain the current String value of this Value.
    /// Will fail if it is none or the variable is uninitialized.
    pub fn get<V: VariableStore>(&self, vars: &V) -> (r: Result<String, ValueError>)
        ensures
            match spec_value_get(self@, vars.vars()) {
                Some(s) => r matches Ok(v) && v@ == s,
                None => r is Err,
            },
            r matches Err(e) ==> match self {
                Value::Empty => e == ValueError::Empty,
                Value::Var(name) => e matches ValueError::Undefined(n) && n@ == name@,
                Value::Constant(_) => false,
            },
    {
        match self {
            Value::Empty => Err(ValueError::Empty),
            Value::Constant(val) => Ok(Self::substitute_tokens(val.as_str(), vars)),
            Value::Var(name) => match vars.get_var(name.as_str()) {
                Some(v) => Ok(owned(v)),
                None => Err(ValueError::Undefined(name.clone())),
            },
        }
    }

    /// Returns whether this value is not none
    pub fn is_some(&self) -> (r: bool)
        ensures
            r == !(self is Empty),
    {
        !matches!(self, Value::Empty)
    }

    /// Gets the current string value and converts to an option.
    pub fn get_as_option<V: VariableStore>(&self, vars: &V) -> (r: Result<
        Option<String>,
        ValueError,
    >)
        ensures
            self is Empty ==> r == Ok::<Option<String>, ValueError>(None),
            !(self is Empty) ==> match spec_value_get(self@, vars.vars()) {
                Some(s) => r matches Ok(Some(v)) && v@ == s,
                None => r is Err,
            },
            r matches Err(e) ==> (self matches Value::Var(name) && e matches ValueError::Undefined(n) && n@
                == name@),
    {
        match self {
            Value::Empty => Ok(None),
            _ => match self.get(vars) {
                Ok(v) => Ok(Some(v)),
                Err(e) => Err(e),
            },
        }
    }

    /// A copy of this value.
    pub fn duplicate(&self) -> (r: Value)
        ensures
            r@ == self@,
    {
        match self {
            Value::Empty => Value::Empty,
            Value::Constant(s) => Value::Constant(s.clone()),
            Value::Var(s) => Value::Var(s.clone()),
        }
    }
}

} // verus!
