//! Evaluation of package scripts

use vstd::prelude::*;

use crate::conditions::{ConditionKind, SCondition};
use crate::instruction::{InstrKind, Instruction, SInstrKind};
use crate::parse::{instr_done, parsed_done, Parsed, SParsed};
use crate::parse_error::FailReason;
use crate::pkg::later_value;
use crate::require::{Package, SPackage};
use crate::routine::{install_routine, INSTALL_ROUTINE};
use crate::shared::{AddonKind, Later};
use crate::text::opt_str_view;
use crate::vars::{spec_is_reserved_constant_var, spec_value_get, SValue, Value, ValueError, VariableStore};

verus! {

/// For what reason we are evaluating the script, which determines
/// what instructions we run
#[derive(Debug, Clone, Copy, PartialEq, Eq, Structural)]
pub enum EvalReason {
    /// Installing addons
    Install,
    /// Resolving relations
    Resolve,
}

/// Configuration for script evaluation
#[derive(Debug, Clone, Copy, PartialEq, Eq, Structural)]
pub struct ScriptEvalConfig {
    /// The reason for evaluation
    pub reason: EvalReason,
}

/// Result from an evaluation subfunction. Mostly used to know when to end
/// evaluation early.
#[derive(Debug, Clone, Copy, PartialEq, Eq, Structural)]
pub struct EvalResult {
    /// Whether to finish evaluation early
    pub finish: bool,
}

impl EvalResult {
    /// Creates a new EvalResult
    pub fn new() -> (r: EvalResult)
        ensures
            !r.finish,
    {
        EvalResult { finish: false }
    }
}

/// A required package
#[derive(Debug, Clone, PartialEq, Eq)]
pub struct RequiredPackage {
    /// The package id that is required
    pub value: String,
    /// Whether this is an explicit dependency
    pub explicit: bool,
}

/// A recommended package
#[derive(Debug, Clone, PartialEq, Eq)]
pub struct RecommendedPackage {
    /// The package id that is required
    pub value: String,
    /// Whether to invert this recommendation
    pub invert: bool,
}

/// Optional hashes of an addon file, as the addon instruction gives them
#[derive(Debug, Clone, Default, PartialEq, Eq)]
pub struct PackageAddonOptionalHashes {
    /// The SHA-256 hash
    pub sha256: Option<String>,
    /// The SHA-512 hash
    pub sha512: Option<String>,
}

/// Data for implementing the addon instruction
#[derive(Debug, Clone)]
pub struct AddonInstructionData {
    /// The ID of the addon
    pub id: String,
    /// The filename of the addon
    pub file_name: Option<String>,
    /// What kind of addon this is
    pub kind: AddonKind,
    /// The URL to the addon file; may not exist
    pub url: Option<String>,
    /// The path to the addon file; may not exist
    pub path: Option<String>,
    /// The version of the addon
    pub version: Option<String>,
    /// The addon's hashes
    pub hashes: PackageAddonOptionalHashes,
}

/// The mathematical value of a value error.
pub enum SValueError {
    Empty,
    Undefined(Seq<char>),
}

/// The error that reading a value without a value gives.
pub open spec fn spec_value_error(v: SValue) -> SValueError {
    match v {
        SValue::Var(name) => SValueError::Undefined(name),
        _ => SValueError::Empty,
    }
}

impl View for ValueError {
    type V = SValueError;

    open spec fn view(&self) -> SValueError {
        match self {
            ValueError::Empty => SValueError::Empty,
            ValueError::Undefined(n) => SValueError::Undefined(n@),
        }
    }
}

/// The value of a value, or its error.
pub open spec fn spec_get(v: SValue, vars: Map<Seq<char>, Seq<char>>) -> Result<Seq<char>, SValueError> {
    match spec_value_get(v, vars) {
        Some(s) => Ok(s),
        None => Err(spec_value_error(v)),
    }
}

/// The value of a value that may be empty, or its error.
pub open spec fn spec_get_opt(v: SValue, vars: Map<Seq<char>, Seq<char>>) -> Result<Option<Seq<char>>, SValueError> {
    match v {
        SValue::Empty => Ok(None),
        _ => match spec_get(v, vars) {
            Ok(s) => Ok(Some(s)),
            Err(e) => Err(e),
        },
    }
}

/// The values of a list of values in order, or the error of the first without one.
pub open spec fn spec_values(vs: Seq<SValue>, vars: Map<Seq<char>, Seq<char>>) -> Result<Seq<Seq<char>>, SValueError>
    decreases vs.len(),
{
    if vs.len() == 0 {
        Ok(Seq::empty())
    } else {
        match spec_values(vs.drop_last(), vars) {
            Ok(prev) => match spec_get(vs.last(), vars) {
                Ok(v) => Ok(prev.push(v)),
                Err(e) => Err(e),
            },
            Err(e) => Err(e),
        }
    }
}

/// The packages of a require group with their values in order, or the error of the first
/// without one.
pub open spec fn spec_group_values(g: Seq<SPackage>, vars: Map<Seq<char>, Seq<char>>) -> Result<
    Seq<(Seq<char>, bool)>,
    SValueError,
>
    decreases g.len(),
{
    if g.len() == 0 {
        Ok(Seq::empty())
    } else {
        match spec_group_values(g.drop_last(), vars) {
            Ok(prev) => match spec_get(g.last().value, vars) {
                Ok(v) => Ok(prev.push((v, g.last().explicit))),
                Err(e) => Err(e),
            },
            Err(e) => Err(e),
        }
    }
}

/// What a package script asks of its evaluator
#[derive(Debug, Clone)]
pub enum EvalOutput {
    /// Add a dependency: one of the packages of the group
    Dependency(Vec<RequiredPackage>),
    /// Add a conflict
    Conflict(String),
    /// Add a recommendation
    Recommendation(RecommendedPackage),
    /// Add a bundled package
    Bundled(String),
    /// Add a compat: the second package is installed where the first is
    Compat(String, String),
    /// Add an extension
    Extension(String),
    /// Add a notice
    Notice(String),
    /// Add a command
    Command(Vec<String>),
    /// Add an addon
    Addon(AddonInstructionData),
}

/// The mathematical value of addon instruction data.
pub struct SAddonData {
    pub id: Seq<char>,
    pub file_name: Option<Seq<char>>,
    pub kind: AddonKind,
    pub url: Option<Seq<char>>,
    pub path: Option<Seq<char>>,
    pub version: Option<Seq<char>>,
    pub sha256: Option<Seq<char>>,
    pub sha512: Option<Seq<char>>,
}

/// The mathematical value of an evaluator output.
pub enum SEvalOutput {
    Dependency(Seq<(Seq<char>, bool)>),
    Conflict(Seq<char>),
    Recommendation(Seq<char>, bool),
    Bundled(Seq<char>),
    Compat(Seq<char>, Seq<char>),
    Extension(Seq<char>),
    Notice(Seq<char>),
    Command(Seq<Seq<char>>),
    Addon(SAddonData),
}

/// The mathematical value of a group of required packages.
pub open spec fn required_view(v: Seq<RequiredPackage>) -> Seq<(Seq<char>, bool)> {
    v.map_values(|p: RequiredPackage| (p.value@, p.explicit))
}

impl View for EvalOutput {
    type V = SEvalOutput;

    open spec fn view(&self) -> SEvalOutput {
        match self {
            EvalOutput::Dependency(v) => SEvalOutput::Dependency(required_view(v@)),
            EvalOutput::Conflict(s) => SEvalOutput::Conflict(s@),
            EvalOutput::Recommendation(r) => SEvalOutput::Recommendation(r.value@, r.invert),
            EvalOutput::Bundled(s) => SEvalOutput::Bundled(s@),
            EvalOutput::Compat(a, b) => SEvalOutput::Compat(a@, b@),
            EvalOutput::Extension(s) => SEvalOutput::Extension(s@),
            EvalOutput::Notice(s) => SEvalOutput::Notice(s@),
            EvalOutput::Command(v) => SEvalOutput::Command(v.deep_view()),
            EvalOutput::Addon(a) => SEvalOutput::Addon(
                SAddonData {
                    id: a.id@,
                    file_name: opt_str_view(a.file_name),
                    kind: a.kind,
                    url: opt_str_view(a.url),
                    path: opt_str_view(a.path),
                    version: opt_str_view(a.version),
                    sha256: opt_str_view(a.hashes.sha256),
                    sha512: opt_str_view(a.hashes.sha512),
                },
            ),
        }
    }
}

/// A type that has specific implementations of package script evaluation functions: it
/// answers the conditions of a script and takes in what the script asks for
pub trait ScriptEvaluator {
    /// The answer to a condition with the given variables; `None` where answering fails.
    spec fn condition_result(&self, c: SCondition, vars: Map<Seq<char>, Seq<char>>) -> Option<bool>;

    /// The message of the error with which answering a condition fails.
    spec fn condition_error(&self, c: SCondition, vars: Map<Seq<char>, Seq<char>>) -> Seq<char>;

    /// Whether the evaluator takes the given output without an error.
    spec fn accepts(&self, out: SEvalOutput) -> bool;

    /// The message of the error with which taking in an output fails.
    spec fn output_error(&self, out: SEvalOutput) -> Seq<char>;

    /// What the evaluator has taken in so far.
    spec fn outputs(&self) -> Seq<SEvalOutput>;

    /// Evaluate a condition
    fn eval_condition<V: VariableStore>(&mut self, vars: &V, condition: &ConditionKind) -> (r: Result<bool, String>)
        ensures
            match old(self).condition_result(condition@, vars.vars()) {
                Some(b) => r matches Ok(x) && x == b,
                None => r matches Err(m) && m@ == old(self).condition_error(condition@, vars.vars()),
            },
            final(self).outputs() == old(self).outputs(),
            forall|c: SCondition, v: Map<Seq<char>, Seq<char>>| #[trigger] final(self).condition_result(c, v) == old(self).condition_result(c, v),
            forall|c: SCondition, v: Map<Seq<char>, Seq<char>>| #[trigger] final(self).condition_error(c, v) == old(self).condition_error(c, v),
            forall|o: SEvalOutput| #[trigger] final(self).accepts(o) == old(self).accepts(o),
            forall|o: SEvalOutput| #[trigger] final(self).output_error(o) == old(self).output_error(o),
    ;

    /// Take in an output of the script
    fn output(&mut self, out: EvalOutput) -> (r: Result<(), String>)
        ensures
            r is Ok == old(self).accepts(out@),
            r matches Err(m) ==> m@ == old(self).output_error(out@),
            r is Ok ==> final(self).outputs() == old(self).outputs().push(out@),
            r is Err ==> final(self).outputs() == old(self).outputs(),
            forall|c: SCondition, v: Map<Seq<char>, Seq<char>>| #[trigger] final(self).condition_result(c, v) == old(self).condition_result(c, v),
            forall|c: SCondition, v: Map<Seq<char>, Seq<char>>| #[trigger] final(self).condition_error(c, v) == old(self).condition_error(c, v),
            forall|o: SEvalOutput| #[trigger] final(self).accepts(o) == old(self).accepts(o),
            forall|o: SEvalOutput| #[trigger] final(self).output_error(o) == old(self).output_error(o),
    ;
}

/// Why evaluating a script failed
#[derive(Debug, Clone, PartialEq, Eq)]
pub enum ScriptEvalError {
    /// A routine that is called or run does not exist
    RoutineMissing(String),
    /// A value could not be read
    Value(ValueError),
    /// A reserved constant variable was set
    ReservedVariable(String),
    /// The script failed explicitly with the reason
    Failed(FailReason),
    /// An instruction that is not allowed in this routine context
    NotAllowed,
    /// The evaluator failed, with its message
    Evaluator(String),
}

/// The mathematical value of an evaluation error.
pub enum SScriptEvalError {
    RoutineMissing(Seq<char>),
    Value(SValueError),
    ReservedVariable(Seq<char>),
    Failed(FailReason),
    NotAllowed,
    Evaluator(Seq<char>),
}

impl View for ScriptEvalError {
    type V = SScriptEvalError;

    open spec fn view(&self) -> SScriptEvalError {
        match self {
            ScriptEvalError::RoutineMissing(r) => SScriptEvalError::RoutineMissing(r@),
            ScriptEvalError::Value(e) => SScriptEvalError::Value(e@),
            ScriptEvalError::ReservedVariable(v) => SScriptEvalError::ReservedVariable(v@),
            ScriptEvalError::Failed(r) => SScriptEvalError::Failed(*r),
            ScriptEvalError::NotAllowed => SScriptEvalError::NotAllowed,
            ScriptEvalError::Evaluator(m) => SScriptEvalError::Evaluator(m@),
        }
    }
}

/// What the evaluation depends on besides the script: the reason, and the evaluator's
/// answers to conditions and acceptance of outputs, with the messages of its errors.
pub struct EvalCtx {
    pub reason: EvalReason,
    pub cond: spec_fn(SCondition, Map<Seq<char>, Seq<char>>) -> Option<bool>,
    pub cond_err: spec_fn(SCondition, Map<Seq<char>, Seq<char>>) -> Seq<char>,
    pub accept: spec_fn(SEvalOutput) -> bool,
    pub accept_err: spec_fn(SEvalOutput) -> Seq<char>,
}

/// The state of an evaluation: the variables and what was handed to the evaluator.
pub struct EvalSt {
    pub vars: Map<Seq<char>, Seq<char>>,
    pub outputs: Seq<SEvalOutput>,
}

/// The outcome of evaluating part of a script: the new state and whether evaluation
/// finishes early, an error, a panic of the evaluator (an addon without a kind), or
/// blocks run nested deeper than the evaluation follows.
pub enum EvalOutcome {
    Done(EvalSt, bool),
    Fail(SScriptEvalError),
    Panic,
    TooDeep,
}

/// Handing an output to the evaluator.
pub open spec fn spec_emit(ctx: EvalCtx, st: EvalSt, out: SEvalOutput) -> EvalOutcome {
    if (ctx.accept)(out) {
        EvalOutcome::Done(EvalSt { outputs: st.outputs.push(out), ..st }, false)
    } else {
        EvalOutcome::Fail(SScriptEvalError::Evaluator((ctx.accept_err)(out)))
    }
}

/// Handing the output made from a value to the evaluator, when resolving.
pub open spec fn spec_emit_value(
    ctx: EvalCtx,
    st: EvalSt,
    v: SValue,
    make: spec_fn(Seq<char>) -> SEvalOutput,
) -> EvalOutcome {
    if ctx.reason is Resolve {
        match spec_get(v, st.vars) {
            Ok(x) => spec_emit(ctx, st, make(x)),
            Err(e) => EvalOutcome::Fail(SScriptEvalError::Value(e)),
        }
    } else {
        EvalOutcome::Done(st, false)
    }
}

/// The dependencies of the require groups, handed over group by group.
pub open spec fn spec_require(ctx: EvalCtx, groups: Seq<Seq<SPackage>>, st: EvalSt) -> EvalOutcome
    decreases groups.len(),
{
    if groups.len() == 0 {
        EvalOutcome::Done(st, false)
    } else {
        match spec_require(ctx, groups.drop_last(), st) {
            EvalOutcome::Done(st2, _) => match spec_group_values(groups.last(), st2.vars) {
                Ok(vals) => spec_emit(ctx, st2, SEvalOutput::Dependency(vals)),
                Err(e) => EvalOutcome::Fail(SScriptEvalError::Value(e)),
            },
            other => other,
        }
    }
}

/// The addon instruction when installing: its values are read in order and handed over;
/// an addon without a kind makes the evaluation panic.
pub open spec fn spec_addon(
    ctx: EvalCtx,
    st: EvalSt,
    id: SValue,
    file_name: SValue,
    kind: Option<AddonKind>,
    url: SValue,
    path: SValue,
    version: SValue,
    sha256: SValue,
    sha512: SValue,
) -> EvalOutcome {
    let vars = st.vars;
    match spec_get(id, vars) {
        Err(e) => EvalOutcome::Fail(SScriptEvalError::Value(e)),
        Ok(id) => match kind {
            None => EvalOutcome::Panic,
            Some(kind) => match (spec_get_opt(sha256, vars), spec_get_opt(sha512, vars)) {
                (Err(e), _) => EvalOutcome::Fail(SScriptEvalError::Value(e)),
                (Ok(_), Err(e)) => EvalOutcome::Fail(SScriptEvalError::Value(e)),
                (Ok(h256), Ok(h512)) => match spec_get_opt(file_name, vars) {
                    Err(e) => EvalOutcome::Fail(SScriptEvalError::Value(e)),
                    Ok(f) => match spec_get_opt(url, vars) {
                        Err(e) => EvalOutcome::Fail(SScriptEvalError::Value(e)),
                        Ok(u) => match spec_get_opt(path, vars) {
                            Err(e) => EvalOutcome::Fail(SScriptEvalError::Value(e)),
                            Ok(pa) => match spec_get_opt(version, vars) {
                                Err(e) => EvalOutcome::Fail(SScriptEvalError::Value(e)),
                                Ok(ve) => spec_emit(
                                    ctx,
                                    st,
                                    SEvalOutput::Addon(
                                        SAddonData {
                                            id,
                                            file_name: f,
                                            kind,
                                            url: u,
                                            path: pa,
                                            version: ve,
                                            sha256: h256,
                                            sha512: h512,
                                        },
                                    ),
                                ),
                            },
                        },
                    },
                },
            },
        },
    }
}

/// An instruction that does not run a block.
pub open spec fn spec_eval_simple(ctx: EvalCtx, k: SInstrKind, st: EvalSt) -> EvalOutcome {
    match k {
        SInstrKind::SetVar(var, val) => match spec_get(val, st.vars) {
            Err(e) => EvalOutcome::Fail(SScriptEvalError::Value(e)),
            Ok(v) => if spec_is_reserved_constant_var(later_value(var)) {
                EvalOutcome::Fail(SScriptEvalError::ReservedVariable(later_value(var)))
            } else {
                EvalOutcome::Done(EvalSt { vars: st.vars.insert(later_value(var), v), ..st }, false)
            },
        },
        SInstrKind::Finish => EvalOutcome::Done(st, true),
        SInstrKind::Fail(reason) => EvalOutcome::Fail(
            SScriptEvalError::Failed(
                match reason {
                    Some(r) => r,
                    None => FailReason::Unspecified,
                },
            ),
        ),
        SInstrKind::Require(groups) => if ctx.reason is Resolve {
            spec_require(ctx, groups, st)
        } else {
            EvalOutcome::Done(st, false)
        },
        SInstrKind::Refuse(v) => spec_emit_value(ctx, st, v, |x: Seq<char>| SEvalOutput::Conflict(x)),
        SInstrKind::Recommend(invert, v) => spec_emit_value(
            ctx,
            st,
            v,
            |x: Seq<char>| SEvalOutput::Recommendation(x, invert),
        ),
        SInstrKind::Bundle(v) => spec_emit_value(ctx, st, v, |x: Seq<char>| SEvalOutput::Bundled(x)),
        SInstrKind::Compat(a, b) => if ctx.reason is Resolve {
            match spec_get(a, st.vars) {
                Err(e) => EvalOutcome::Fail(SScriptEvalError::Value(e)),
                Ok(x) => match spec_get(b, st.vars) {
                    Err(e) => EvalOutcome::Fail(SScriptEvalError::Value(e)),
                    Ok(y) => spec_emit(ctx, st, SEvalOutput::Compat(x, y)),
                },
            }
        } else {
            EvalOutcome::Done(st, false)
        },
        SInstrKind::Extend(v) => spec_emit_value(ctx, st, v, |x: Seq<char>| SEvalOutput::Extension(x)),
        SInstrKind::Notice(v) => match spec_get(v, st.vars) {
            Ok(x) => spec_emit(ctx, st, SEvalOutput::Notice(x)),
            Err(e) => EvalOutcome::Fail(SScriptEvalError::Value(e)),
        },
        SInstrKind::Cmd(vs) => if ctx.reason is Install {
            match spec_values(vs, st.vars) {
                Ok(xs) => spec_emit(ctx, st, SEvalOutput::Command(xs)),
                Err(e) => EvalOutcome::Fail(SScriptEvalError::Value(e)),
            }
        } else {
            EvalOutcome::Done(st, false)
        },
        SInstrKind::Addon { id, file_name, kind, url, path, version, sha256, sha512 } => if ctx.reason is Install {
            spec_addon(ctx, st, id, file_name, kind, url, path, version, sha256, sha512)
        } else {
            EvalOutcome::Done(st, false)
        },
        _ => EvalOutcome::Fail(SScriptEvalError::NotAllowed),
    }
}

/// Utility function to convert a list of values to a list of strings
pub fn get_value_vec<V: VariableStore>(vec: &[Value], vars: &V) -> (r: Result<Vec<String>, ValueError>)
    ensures
        match spec_values(vec@.map_values(|v: Value| v@), vars.vars()) {
            Ok(vals) => r matches Ok(out) && out.deep_view() == vals,
            Err(e) => r matches Err(x) && x@ == e,
        },
{
    let ghost vs = vec@.map_values(|v: Value| v@);
    let mut out: Vec<String> = Vec::new();
    proof {
        assert(out.deep_view() =~= Seq::<Seq<char>>::empty());
        assert(vs.take(0) =~= Seq::empty());
    }
    let mut i: usize = 0;
    while i < vec.len()
        invariant
            i <= vec@.len(),
            vs == vec@.map_values(|v: Value| v@),
            spec_values(vs.take(i as int), vars.vars()) == Ok::<Seq<Seq<char>>, SValueError>(out.deep_view()),
        decreases vec@.len() - i,
    {
        proof {
            assert(vs.take(i + 1).drop_last() =~= vs.take(i as int));
            assert(vs.take(i + 1).last() == vec@[i as int]@);
        }
        match get_value(&vec[i], vars) {
            Ok(v) => {
                let ghost pre = out.deep_view();
                let ghost vv = v@;
                out.push(v);
                proof {
                    assert(out.deep_view() =~= pre.push(vv));
                }
            },
            Err(e) => {
                proof {
                    lemma_values_err(vs, vars.vars(), i + 1);
                }
                return Err(e);
            },
        }
        i = i + 1;
    }
    proof {
        assert(vs.take(vec@.len() as int) =~= vs);
    }
    Ok(out)
}

proof fn lemma_values_err(vs: Seq<SValue>, vars: Map<Seq<char>, Seq<char>>, n: int)
    requires
        0 <= n <= vs.len(),
        spec_values(vs.take(n), vars) is Err,
    ensures
        spec_values(vs, vars) == spec_values(vs.take(n), vars),
    decreases vs.len() - n,
{
    if n < vs.len() {
        assert(vs.take(n + 1).drop_last() =~= vs.take(n));
        lemma_values_err(vs, vars, n + 1);
    } else {
        assert(vs.take(n) =~= vs);
    }
}

/// The value of a value, or its error
fn get_value<V: VariableStore>(v: &Value, vars: &V) -> (r: Result<String, ValueError>)
    ensures
        match spec_get(v@, vars.vars()) {
            Ok(s) => r matches Ok(x) && x@ == s,
            Err(e) => r matches Err(x) && x@ == e,
        },
{
    v.get(vars)
}

/// The value of a value that may be empty, or its error
fn get_value_opt<V: VariableStore>(v: &Value, vars: &V) -> (r: Result<Option<String>, ValueError>)
    ensures
        match spec_get_opt(v@, vars.vars()) {
            Ok(s) => r matches Ok(x) && opt_str_view(x) == s,
            Err(e) => r matches Err(x) && x@ == e,
        },
{
    match v {
        Value::Empty => Ok(None),
        _ => match get_value(v, vars) {
            Ok(s) => Ok(Some(s)),
            Err(e) => Err(e),
        },
    }
}

/// The evaluator's answers, acceptance and error messages are those of the context.
pub open spec fn same_oracles<E: ScriptEvaluator>(ctx: EvalCtx, e: E) -> bool {
    &&& forall|c: SCondition, v: Map<Seq<char>, Seq<char>>| #[trigger] (ctx.cond)(c, v) == e.condition_result(c, v)
    &&& forall|c: SCondition, v: Map<Seq<char>, Seq<char>>| #[trigger] (ctx.cond_err)(c, v) == e.condition_error(c, v)
    &&& forall|o: SEvalOutput| #[trigger] (ctx.accept)(o) == e.accepts(o)
    &&& forall|o: SEvalOutput| #[trigger] (ctx.accept_err)(o) == e.output_error(o)
}

/// The context that an evaluator gives for the given reason.
pub open spec fn ctx_of<E: ScriptEvaluator>(e: E, reason: EvalReason) -> EvalCtx {
    EvalCtx {
        reason,
        cond: |c: SCondition, v: Map<Seq<char>, Seq<char>>| e.condition_result(c, v),
        cond_err: |c: SCondition, v: Map<Seq<char>, Seq<char>>| e.condition_error(c, v),
        accept: |o: SEvalOutput| e.accepts(o),
        accept_err: |o: SEvalOutput| e.output_error(o),
    }
}

/// The outcome of an executable evaluation step, compared with its mathematical outcome.
pub open spec fn outcome_matches<E: ScriptEvaluator, V: VariableStore>(
    o: EvalOutcome,
    r: Result<EvalResult, ScriptEvalError>,
    e: E,
    vars: V,
) -> bool {
    match o {
        EvalOutcome::Done(st, fin) => r matches Ok(res) && res.finish == fin && vars.vars() == st.vars
            && e.outputs() == st.outputs,
        EvalOutcome::Fail(err) => r matches Err(x) && x@ == err,
        EvalOutcome::Panic => false,
        EvalOutcome::TooDeep => false,
    }
}

/// The outcome of an evaluation step that gives up where blocks run nested too deep,
/// compared with its mathematical outcome.
pub open spec fn outcome_matches_bounded<E: ScriptEvaluator, V: VariableStore>(
    o: EvalOutcome,
    r: Option<Result<EvalResult, ScriptEvalError>>,
    e: E,
    vars: V,
) -> bool {
    match o {
        EvalOutcome::TooDeep => r is None,
        _ => r matches Some(x) && outcome_matches(o, x, e, vars),
    }
}

/// The state of an evaluation with the given evaluator and variables.
pub open spec fn st_of<E: ScriptEvaluator, V: VariableStore>(e: E, vars: V) -> EvalSt {
    EvalSt { vars: vars.vars(), outputs: e.outputs() }
}

/// Hands an output to the evaluator
fn emit<E: ScriptEvaluator, V: VariableStore>(e: &mut E, vars: &V, out: EvalOutput, Ghost(ctx): Ghost<EvalCtx>) -> (r: Result<
    EvalResult,
    ScriptEvalError,
>)
    requires
        same_oracles(ctx, *old(e)),
    ensures
        same_oracles(ctx, *final(e)),
        outcome_matches(spec_emit(ctx, st_of(*old(e), *vars), out@), r, *final(e), *vars),
{
    match e.output(out) {
        Ok(()) => Ok(EvalResult::new()),
        Err(msg) => Err(ScriptEvalError::Evaluator(msg)),
    }
}

/// The mathematical value of a list of require groups.
pub open spec fn groups_of(g: Seq<Vec<Package>>) -> Seq<Seq<SPackage>> {
    crate::require::groups_view(g)
}

proof fn lemma_require_stop(ctx: EvalCtx, groups: Seq<Seq<SPackage>>, st: EvalSt, n: int)
    requires
        0 <= n <= groups.len(),
        !(spec_require(ctx, groups.take(n), st) is Done),
    ensures
        spec_require(ctx, groups, st) == spec_require(ctx, groups.take(n), st),
    decreases groups.len() - n,
{
    if n < groups.len() {
        assert(groups.take(n + 1).drop_last() =~= groups.take(n));
        lemma_require_stop(ctx, groups, st, n + 1);
    } else {
        assert(groups.take(n) =~= groups);
    }
}

proof fn lemma_group_err(g: Seq<SPackage>, vars: Map<Seq<char>, Seq<char>>, n: int)
    requires
        0 <= n <= g.len(),
        spec_group_values(g.take(n), vars) is Err,
    ensures
        spec_group_values(g, vars) == spec_group_values(g.take(n), vars),
    decreases g.len() - n,
{
    if n < g.len() {
        assert(g.take(n + 1).drop_last() =~= g.take(n));
        lemma_group_err(g, vars, n + 1);
    } else {
        assert(g.take(n) =~= g);
    }
}

/// The packages of a require group with their values
fn group_values<V: VariableStore>(g: &Vec<Package>, vars: &V) -> (r: Result<Vec<RequiredPackage>, ValueError>)
    ensures
        match spec_group_values(crate::require::group_view(g@), vars.vars()) {
            Ok(vals) => r matches Ok(out) && required_view(out@) == vals,
            Err(e) => r matches Err(x) && x@ == e,
        },
{
    let ghost gv = crate::require::group_view(g@);
    let mut out: Vec<RequiredPackage> = Vec::new();
    proof {
        assert(required_view(out@) =~= Seq::empty());
        assert(gv.take(0) =~= Seq::empty());
    }
    let mut i: usize = 0;
    while i < g.len()
        invariant
            i <= g@.len(),
            gv == crate::require::group_view(g@),
            spec_group_values(gv.take(i as int), vars.vars()) == Ok::<Seq<(Seq<char>, bool)>, SValueError>(required_view(out@)),
        decreases g@.len() - i,
    {
        proof {
            assert(gv.take(i + 1).drop_last() =~= gv.take(i as int));
            assert(gv.take(i + 1).last() == g@[i as int]@);
        }
        match get_value(&g[i].value, vars) {
            Ok(v) => {
                let ghost pre = required_view(out@);
                let p = RequiredPackage { value: v, explicit: g[i].explicit };
                let ghost pv = (p.value@, p.explicit);
                out.push(p);
                proof {
                    assert(required_view(out@) =~= pre.push(pv));
                }
            },
            Err(e) => {
                proof {
                    lemma_group_err(gv, vars.vars(), i + 1);
                }
                return Err(e);
            },
        }
        i = i + 1;
    }
    proof {
        assert(gv.take(g@.len() as int) =~= gv);
    }
    Ok(out)
}

/// Hands the dependencies of the require groups to the evaluator, group by group
fn eval_require<E: ScriptEvaluator, V: VariableStore>(
    groups: &Vec<Vec<Package>>,
    e: &mut E,
    vars: &V,
    Ghost(ctx): Ghost<EvalCtx>,
) -> (r: Result<EvalResult, ScriptEvalError>)
    requires
        same_oracles(ctx, *old(e)),
    ensures
        same_oracles(ctx, *final(e)),
        outcome_matches(spec_require(ctx, groups_of(groups@), st_of(*old(e), *vars)), r, *final(e), *vars),
{
    let ghost gs = groups_of(groups@);
    let ghost st0 = st_of(*e, *vars);
    proof {
        assert(gs.take(0) =~= Seq::<Seq<SPackage>>::empty());
    }
    let mut i: usize = 0;
    while i < groups.len()
        invariant
            i <= groups@.len(),
            gs == groups_of(groups@),
            same_oracles(ctx, *e),
            st0.vars == vars.vars(),
            st0 == st_of(*old(e), *vars),
            spec_require(ctx, gs.take(i as int), st0) == EvalOutcome::Done(st_of(*e, *vars), false),
        decreases groups@.len() - i,
    {
        proof {
            assert(gs.take(i + 1).drop_last() =~= gs.take(i as int));
            assert(gs.take(i + 1).last() == crate::require::group_view(groups@[i as int]@));
        }
        match group_values(&groups[i], vars) {
            Ok(vals) => {
                match emit(e, vars, EvalOutput::Dependency(vals), Ghost(ctx)) {
                    Ok(_) => {},
                    Err(err) => {
                        proof {
                            lemma_require_stop(ctx, gs, st0, i + 1);
                        }
                        return Err(err);
                    },
                }
            },
            Err(err) => {
                proof {
                    lemma_require_stop(ctx, gs, st0, i + 1);
                }
                return Err(ScriptEvalError::Value(err));
            },
        }
        i = i + 1;
    }
    proof {
        assert(gs.take(groups@.len() as int) =~= gs);
    }
    Ok(EvalResult::new())
}

/// Hands the output made from a value to the evaluator, when resolving
fn emit_value<E: ScriptEvaluator, V: VariableStore>(
    v: &Value,
    make: u8,
    invert: bool,
    e: &mut E,
    vars: &V,
    config: &ScriptEvalConfig,
    Ghost(ctx): Ghost<EvalCtx>,
) -> (r: Result<EvalResult, ScriptEvalError>)
    requires
        same_oracles(ctx, *old(e)),
        ctx.reason == config.reason,
        make < 4,
    ensures
        same_oracles(ctx, *final(e)),
        outcome_matches(
            spec_emit_value(ctx, st_of(*old(e), *vars), v@, output_maker(make, invert)),
            r,
            *final(e),
            *vars,
        ),
{
    match config.reason {
        EvalReason::Resolve => match get_value(v, vars) {
            Ok(x) => {
                let out = if make == 0 {
                    EvalOutput::Conflict(x)
                } else if make == 1 {
                    EvalOutput::Recommendation(RecommendedPackage { value: x, invert })
                } else if make == 2 {
                    EvalOutput::Bundled(x)
                } else {
                    EvalOutput::Extension(x)
                };
                emit(e, vars, out, Ghost(ctx))
            },
            Err(err) => Err(ScriptEvalError::Value(err)),
        },
        EvalReason::Install => Ok(EvalResult::new()),
    }
}

/// The output that a value makes, by kind: a conflict, a recommendation, a bundled package
/// or an extension.
pub open spec fn output_maker(make: u8, invert: bool) -> spec_fn(Seq<char>) -> SEvalOutput {
    if make == 0 {
        |x: Seq<char>| SEvalOutput::Conflict(x)
    } else if make == 1 {
        |x: Seq<char>| SEvalOutput::Recommendation(x, invert)
    } else if make == 2 {
        |x: Seq<char>| SEvalOutput::Bundled(x)
    } else {
        |x: Seq<char>| SEvalOutput::Extension(x)
    }
}

/// Evaluates an instruction that does not run a block
fn eval_simple<E: ScriptEvaluator, V: VariableStore>(
    kind: &InstrKind,
    e: &mut E,
    vars: &mut V,
    config: &ScriptEvalConfig,
    Ghost(ctx): Ghost<EvalCtx>,
) -> (r: Result<EvalResult, ScriptEvalError>)
    requires
        same_oracles(ctx, *old(e)),
        ctx.reason == config.reason,
        instr_done(kind@),
        !(kind@ is If),
        !(kind@ is Call),
        !(spec_eval_simple(ctx, kind@, st_of(*old(e), *old(vars))) is Panic),
    ensures
        same_oracles(ctx, *final(e)),
        outcome_matches(spec_eval_simple(ctx, kind@, st_of(*old(e), *old(vars))), r, *final(e), *final(vars)),
{
    match kind {
        InstrKind::SetVar(var, val) => {
            let name = match var {
                Later::Full(n) => n.clone(),
                Later::Empty => String::new(),
            };
            match get_value(val, vars) {
                Ok(v) => {
                    let n2 = name.clone();
                    match vars.try_set_var(name, v) {
                        Ok(()) => Ok(EvalResult::new()),
                        Err(_) => Err(ScriptEvalError::ReservedVariable(n2)),
                    }
                },
                Err(err) => Err(ScriptEvalError::Value(err)),
            }
        },
        InstrKind::Finish() => Ok(EvalResult { finish: true }),
        InstrKind::Fail(reason) => {
            let reason = match reason {
                Some(r) => *r,
                None => FailReason::Unspecified,
            };
            Err(ScriptEvalError::Failed(reason))
        },
        InstrKind::Require(deps) => match config.reason {
            EvalReason::Resolve => eval_require(deps, e, vars, Ghost(ctx)),
            EvalReason::Install => Ok(EvalResult::new()),
        },
        InstrKind::Refuse(package) => emit_value(package, 0, false, e, vars, config, Ghost(ctx)),
        InstrKind::Recommend(invert, package) => emit_value(package, 1, *invert, e, vars, config, Ghost(ctx)),
        InstrKind::Bundle(package) => emit_value(package, 2, false, e, vars, config, Ghost(ctx)),
        InstrKind::Compat(package, compat) => match config.reason {
            EvalReason::Resolve => match get_value(package, vars) {
                Ok(x) => match get_value(compat, vars) {
                    Ok(y) => emit(e, vars, EvalOutput::Compat(x, y), Ghost(ctx)),
                    Err(err) => Err(ScriptEvalError::Value(err)),
                },
                Err(err) => Err(ScriptEvalError::Value(err)),
            },
            EvalReason::Install => Ok(EvalResult::new()),
        },
        InstrKind::Extend(package) => emit_value(package, 3, false, e, vars, config, Ghost(ctx)),
        InstrKind::Notice(notice) => match get_value(notice, vars) {
            Ok(x) => emit(e, vars, EvalOutput::Notice(x), Ghost(ctx)),
            Err(err) => Err(ScriptEvalError::Value(err)),
        },
        InstrKind::Cmd(command) => match config.reason {
            EvalReason::Install => match get_value_vec(command.as_slice(), vars) {
                Ok(xs) => emit(e, vars, EvalOutput::Command(xs), Ghost(ctx)),
                Err(err) => Err(ScriptEvalError::Value(err)),
            },
            EvalReason::Resolve => Ok(EvalResult::new()),
        },
        InstrKind::Addon { id, file_name, kind, url, path, version, hashes } => match config.reason {
            EvalReason::Install => {
                let id = match get_value(id, vars) {
                    Ok(x) => x,
                    Err(err) => {
                        return Err(ScriptEvalError::Value(err));
                    },
                };
                let kind = match kind {
                    Some(k) => *k,
                    None => {
                        proof {
                            assert(false);
                        }
                        return Err(ScriptEvalError::NotAllowed);
                    },
                };
                let sha256 = match get_value_opt(&hashes.sha256, vars) {
                    Ok(x) => x,
                    Err(err) => {
                        return Err(ScriptEvalError::Value(err));
                    },
                };
                let sha512 = match get_value_opt(&hashes.sha512, vars) {
                    Ok(x) => x,
                    Err(err) => {
                        return Err(ScriptEvalError::Value(err));
                    },
                };
                let file_name = match get_value_opt(file_name, vars) {
                    Ok(x) => x,
                    Err(err) => {
                        return Err(ScriptEvalError::Value(err));
                    },
                };
                let url = match get_value_opt(url, vars) {
                    Ok(x) => x,
                    Err(err) => {
                        return Err(ScriptEvalError::Value(err));
                    },
                };
                let path = match get_value_opt(path, vars) {
                    Ok(x) => x,
                    Err(err) => {
                        return Err(ScriptEvalError::Value(err));
                    },
                };
                let version = match get_value_opt(version, vars) {
                    Ok(x) => x,
                    Err(err) => {
                        return Err(ScriptEvalError::Value(err));
                    },
                };
                let data = AddonInstructionData {
                    id,
                    file_name,
                    kind,
                    url,
                    path,
                    version,
                    hashes: PackageAddonOptionalHashes { sha256, sha512 },
                };
                emit(e, vars, EvalOutput::Addon(data), Ghost(ctx))
            },
            EvalReason::Resolve => Ok(EvalResult::new()),
        },
        _ => Err(ScriptEvalError::NotAllowed),
    }
}

/// Whether an instruction standing in block `b` only runs blocks of lower rank.
pub open spec fn instr_ranked(p: SParsed, rank: spec_fn(int) -> nat, b: int, k: SInstrKind) -> bool {
    match k {
        SInstrKind::If { if_block, .. } => rank(if_block as int) < rank(b),
        SInstrKind::Call(t) => p.routines.contains_key(later_value(t)) ==> rank(
            p.routines[later_value(t)] as int,
        ) < rank(b),
        _ => true,
    }
}

/// A ranking of the blocks under which every if instruction and every call runs a block
/// of lower rank than the block it stands in: running the script cannot recurse forever.
pub open spec fn ranked(p: SParsed, rank: spec_fn(int) -> nat) -> bool {
    forall|b: int, i: int|
        0 <= b < p.blocks.len() && 0 <= i < p.blocks[b].contents.len() ==> instr_ranked(
            p,
            rank,
            b + 1,
            #[trigger] p.blocks[b].contents[i],
        )
}

/// Evaluating block `b`, following blocks run inside it to `depth` levels of nesting.
pub open spec fn spec_eval_block(p: SParsed, depth: nat, ctx: EvalCtx, b: int, st: EvalSt) -> EvalOutcome
    decreases depth, 1nat, 0nat
    when 1 <= b <= p.blocks.len()
{
    spec_eval_instrs(p, depth, ctx, b, p.blocks[b - 1].contents.len(), st)
}

/// Evaluating the first `n` instructions of block `b`, stopping early where one finishes
/// the evaluation or fails.
pub open spec fn spec_eval_instrs(
    p: SParsed,
    depth: nat,
    ctx: EvalCtx,
    b: int,
    n: nat,
    st: EvalSt,
) -> EvalOutcome
    decreases depth, 0nat, n
    when 1 <= b <= p.blocks.len() && n <= p.blocks[b - 1].contents.len()
{
    if n == 0 {
        EvalOutcome::Done(st, false)
    } else {
        match spec_eval_instrs(p, depth, ctx, b, (n - 1) as nat, st) {
            EvalOutcome::Done(st2, false) => spec_eval_instr(p, depth, ctx, b, n - 1, st2),
            other => other,
        }
    }
}

/// Evaluating instruction `i` of block `b`: an if runs its block where the evaluator
/// answers its condition with yes, a call runs the routine's block, each one level of
/// nesting deeper, and the others are simple.
pub open spec fn spec_eval_instr(
    p: SParsed,
    depth: nat,
    ctx: EvalCtx,
    b: int,
    i: int,
    st: EvalSt,
) -> EvalOutcome
    decreases depth, 0nat, 0nat
    when 1 <= b <= p.blocks.len() && 0 <= i < p.blocks[b - 1].contents.len()
{
    match p.blocks[b - 1].contents[i] {
        SInstrKind::If { condition, if_block, .. } => match (ctx.cond)(condition, st.vars) {
            None => EvalOutcome::Fail(SScriptEvalError::Evaluator((ctx.cond_err)(condition, st.vars))),
            Some(true) => if depth == 0 {
                EvalOutcome::TooDeep
            } else {
                spec_eval_block(p, (depth - 1) as nat, ctx, if_block as int, st)
            },
            Some(false) => EvalOutcome::Done(st, false),
        },
        SInstrKind::Call(t) => if p.routines.contains_key(later_value(t)) {
            if depth == 0 {
                EvalOutcome::TooDeep
            } else {
                spec_eval_block(p, (depth - 1) as nat, ctx, p.routines[later_value(t)] as int, st)
            }
        } else {
            EvalOutcome::Fail(SScriptEvalError::RoutineMissing(later_value(t)))
        },
        k => spec_eval_simple(ctx, k, st),
    }
}

/// The outcome of handing `o` to an evaluator with the answers of `ctx`: taken, it is
/// added after the earlier outputs with the variables kept; refused, evaluation fails with
/// the evaluator's message.
pub open spec fn handed_over(ctx: EvalCtx, st: EvalSt, o: SEvalOutput) -> EvalOutcome {
    if (ctx.accept)(o) {
        EvalOutcome::Done(EvalSt { vars: st.vars, outputs: st.outputs.push(o) }, false)
    } else {
        EvalOutcome::Fail(SScriptEvalError::Evaluator((ctx.accept_err)(o)))
    }
}

/// When resolving, each relation instruction whose package evaluates to `x` hands the
/// evaluator exactly the output of its kind: `bundle` a bundled package, `refuse` a
/// conflict, `extend` an extension, `recommend` a recommendation with its inversion and
/// `compat` a compat of its two packages.
pub proof fn law_resolving_relation_outputs(
    p: SParsed,
    depth: nat,
    ctx: EvalCtx,
    b: int,
    i: int,
    st: EvalSt,
    x: Seq<char>,
    y: Seq<char>,
    invert: bool,
)
    requires
        1 <= b <= p.blocks.len(),
        0 <= i < p.blocks[b - 1].contents.len(),
        ctx.reason is Resolve,
    ensures
        p.blocks[b - 1].contents[i] matches SInstrKind::Bundle(v) && spec_value_get(v, st.vars) == Some(x)
            ==> spec_eval_instr(p, depth, ctx, b, i, st) == handed_over(ctx, st, SEvalOutput::Bundled(x)),
        p.blocks[b - 1].contents[i] matches SInstrKind::Refuse(v) && spec_value_get(v, st.vars) == Some(x)
            ==> spec_eval_instr(p, depth, ctx, b, i, st) == handed_over(ctx, st, SEvalOutput::Conflict(x)),
        p.blocks[b - 1].contents[i] matches SInstrKind::Extend(v) && spec_value_get(v, st.vars) == Some(x)
            ==> spec_eval_instr(p, depth, ctx, b, i, st) == handed_over(ctx, st, SEvalOutput::Extension(x)),
        p.blocks[b - 1].contents[i] matches SInstrKind::Recommend(r, v) && r == invert && spec_value_get(
            v,
            st.vars,
        ) == Some(x) ==> spec_eval_instr(p, depth, ctx, b, i, st) == handed_over(
            ctx,
            st,
            SEvalOutput::Recommendation(x, invert),
        ),
        p.blocks[b - 1].contents[i] matches SInstrKind::Compat(v, w) && spec_value_get(v, st.vars) == Some(x)
            && spec_value_get(w, st.vars) == Some(y) ==> spec_eval_instr(p, depth, ctx, b, i, st) == handed_over(
            ctx,
            st,
            SEvalOutput::Compat(x, y),
        ),
{
}

/// The value of an optional field: none where it is left empty.
pub open spec fn value_or_none(v: SValue, vars: Map<Seq<char>, Seq<char>>) -> Option<Seq<char>> {
    if v is Empty {
        None
    } else {
        spec_value_get(v, vars)
    }
}

/// Whether an optional field is empty or has a value.
pub open spec fn field_readable(v: SValue, vars: Map<Seq<char>, Seq<char>>) -> bool {
    v is Empty || spec_value_get(v, vars) is Some
}

/// When installing, an addon with its kind whose fields can all be read hands the
/// evaluator the addon with each field's value in the field of the same name.
pub proof fn law_installing_addon_output(
    p: SParsed,
    depth: nat,
    ctx: EvalCtx,
    b: int,
    i: int,
    st: EvalSt,
    id: SValue,
    file_name: SValue,
    kind: AddonKind,
    url: SValue,
    path: SValue,
    version: SValue,
    sha256: SValue,
    sha512: SValue,
    x: Seq<char>,
)
    requires
        1 <= b <= p.blocks.len(),
        0 <= i < p.blocks[b - 1].contents.len(),
        ctx.reason is Install,
        p.blocks[b - 1].contents[i] == (SInstrKind::Addon {
            id,
            file_name,
            kind: Some(kind),
            url,
            path,
            version,
            sha256,
            sha512,
        }),
        spec_value_get(id, st.vars) == Some(x),
        field_readable(file_name, st.vars),
        field_readable(url, st.vars),
        field_readable(path, st.vars),
        field_readable(version, st.vars),
        field_readable(sha256, st.vars),
        field_readable(sha512, st.vars),
    ensures
        spec_eval_instr(p, depth, ctx, b, i, st) == handed_over(
            ctx,
            st,
            SEvalOutput::Addon(
                SAddonData {
                    id: x,
                    file_name: value_or_none(file_name, st.vars),
                    kind,
                    url: value_or_none(url, st.vars),
                    path: value_or_none(path, st.vars),
                    version: value_or_none(version, st.vars),
                    sha256: value_or_none(sha256, st.vars),
                    sha512: value_or_none(sha512, st.vars),
                },
            ),
        ),
{
}

/// A notice whose text evaluates to `x` hands the evaluator that notice, whatever the
/// evaluation is for.
pub proof fn law_notice_output(p: SParsed, depth: nat, ctx: EvalCtx, b: int, i: int, st: EvalSt, x: Seq<char>)
    requires
        1 <= b <= p.blocks.len(),
        0 <= i < p.blocks[b - 1].contents.len(),
        p.blocks[b - 1].contents[i] matches SInstrKind::Notice(v) && spec_value_get(v, st.vars) == Some(x),
    ensures
        spec_eval_instr(p, depth, ctx, b, i, st) == handed_over(ctx, st, SEvalOutput::Notice(x)),
{
}

/// When installing, the relation instructions hand the evaluator nothing and change
/// nothing.
pub proof fn law_installing_skips_relations(p: SParsed, depth: nat, ctx: EvalCtx, b: int, i: int, st: EvalSt)
    requires
        1 <= b <= p.blocks.len(),
        0 <= i < p.blocks[b - 1].contents.len(),
        ctx.reason is Install,
        p.blocks[b - 1].contents[i] is Bundle || p.blocks[b - 1].contents[i] is Refuse
            || p.blocks[b - 1].contents[i] is Extend || p.blocks[b - 1].contents[i] is Recommend
            || p.blocks[b - 1].contents[i] is Compat || p.blocks[b - 1].contents[i] is Require,
    ensures
        spec_eval_instr(p, depth, ctx, b, i, st) == EvalOutcome::Done(st, false),
{
}

proof fn lemma_instrs_stop(p: SParsed, depth: nat, ctx: EvalCtx, b: int, j: nat, n: nat, st: EvalSt)
    requires
        1 <= b <= p.blocks.len(),
        j <= n <= p.blocks[b - 1].contents.len(),
        !(spec_eval_instrs(p, depth, ctx, b, j, st) matches EvalOutcome::Done(_, false)),
    ensures
        spec_eval_instrs(p, depth, ctx, b, n, st) == spec_eval_instrs(p, depth, ctx, b, j, st),
    decreases n - j,
{
    if j < n {
        lemma_instrs_stop(p, depth, ctx, b, j, (n - 1) as nat, st);
    }
}

/// Once an instruction finishes the evaluation or fails, the rest of its block is not
/// run: evaluating the whole block gives the outcome of its instructions up to that one.
pub proof fn law_block_stops_at_finish_or_failure(
    p: SParsed,
    depth: nat,
    ctx: EvalCtx,
    b: int,
    j: nat,
    st: EvalSt,
)
    requires
        1 <= b <= p.blocks.len(),
        j <= p.blocks[b - 1].contents.len(),
        !(spec_eval_instrs(p, depth, ctx, b, j, st) matches EvalOutcome::Done(_, false)),
    ensures
        spec_eval_block(p, depth, ctx, b, st) == spec_eval_instrs(p, depth, ctx, b, j, st),
{
    lemma_instrs_stop(p, depth, ctx, b, j, p.blocks[b - 1].contents.len(), st);
}

/// Evaluate a block of instructions, running blocks inside it to `depth` levels of
/// nesting; `None` where they are nested deeper
fn eval_block<E: ScriptEvaluator, V: VariableStore>(
    parsed: &Parsed,
    b: u16,
    e: &mut E,
    vars: &mut V,
    config: &ScriptEvalConfig,
    depth: u64,
    Ghost(ctx): Ghost<EvalCtx>,
) -> (r: Option<Result<EvalResult, ScriptEvalError>>)
    requires
        parsed_done(parsed@),
        1 <= b <= parsed@.blocks.len(),
        same_oracles(ctx, *old(e)),
        ctx.reason == config.reason,
        !(spec_eval_block(parsed@, depth as nat, ctx, b as int, st_of(*old(e), *old(vars))) is Panic),
    ensures
        same_oracles(ctx, *final(e)),
        outcome_matches_bounded(
            spec_eval_block(parsed@, depth as nat, ctx, b as int, st_of(*old(e), *old(vars))),
            r,
            *final(e),
            *final(vars),
        ),
    decreases depth, 1nat, 0nat,
{
    let block = match parsed.get_block(b) {
        Some(block) => block,
        None => {
            return Some(Err(ScriptEvalError::NotAllowed));
        },
    };
    let ghost p = parsed@;
    let ghost d = depth as nat;
    let ghost st0 = st_of(*e, *vars);
    let n = block.contents.len();
    let mut i: usize = 0;
    while i < n
        invariant
            p == parsed@,
            d == depth as nat,
            parsed_done(p),
            1 <= b <= p.blocks.len(),
            block@ == p.blocks[b - 1],
            n == block.contents@.len(),
            i <= n,
            same_oracles(ctx, *e),
            ctx.reason == config.reason,
            st0 == st_of(*old(e), *old(vars)),
            !(spec_eval_block(p, d, ctx, b as int, st0) is Panic),
            spec_eval_instrs(p, d, ctx, b as int, i as nat, st0) == EvalOutcome::Done(st_of(*e, *vars), false),
        decreases n - i,
    {
        proof {
            assert(p.blocks[b - 1].contents.len() == n);
            if !(spec_eval_instrs(p, d, ctx, b as int, (i + 1) as nat, st0) matches EvalOutcome::Done(_, false)) {
                lemma_instrs_stop(p, d, ctx, b as int, (i + 1) as nat, n as nat, st0);
            }
        }
        match eval_instr(parsed, b, i, e, vars, config, depth, Ghost(ctx)) {
            None => {
                proof {
                    lemma_instrs_stop(p, d, ctx, b as int, (i + 1) as nat, n as nat, st0);
                }
                return None;
            },
            Some(Ok(res)) => {
                if res.finish {
                    proof {
                        lemma_instrs_stop(p, d, ctx, b as int, (i + 1) as nat, n as nat, st0);
                    }
                    return Some(Ok(EvalResult { finish: true }));
                }
            },
            Some(Err(err)) => {
                proof {
                    lemma_instrs_stop(p, d, ctx, b as int, (i + 1) as nat, n as nat, st0);
                }
                return Some(Err(err));
            },
        }
        i = i + 1;
    }
    Some(Ok(EvalResult::new()))
}

/// Evaluate an instruction of a block, running blocks inside it to `depth` levels of
/// nesting; `None` where they are nested deeper
fn eval_instr<E: ScriptEvaluator, V: VariableStore>(
    parsed: &Parsed,
    b: u16,
    i: usize,
    e: &mut E,
    vars: &mut V,
    config: &ScriptEvalConfig,
    depth: u64,
    Ghost(ctx): Ghost<EvalCtx>,
) -> (r: Option<Result<EvalResult, ScriptEvalError>>)
    requires
        parsed_done(parsed@),
        1 <= b <= parsed@.blocks.len(),
        i < parsed@.blocks[b - 1].contents.len(),
        same_oracles(ctx, *old(e)),
        ctx.reason == config.reason,
        !(spec_eval_instr(parsed@, depth as nat, ctx, b as int, i as int, st_of(*old(e), *old(vars))) is Panic),
    ensures
        same_oracles(ctx, *final(e)),
        outcome_matches_bounded(
            spec_eval_instr(parsed@, depth as nat, ctx, b as int, i as int, st_of(*old(e), *old(vars))),
            r,
            *final(e),
            *final(vars),
        ),
    decreases depth, 0nat, 0nat,
{
    let block = match parsed.get_block(b) {
        Some(block) => block,
        None => {
            return Some(Err(ScriptEvalError::NotAllowed));
        },
    };
    let ghost p = parsed@;
    let ghost k = p.blocks[b - 1].contents[i as int];
    proof {
        assert(block.contents@[i as int].kind@ == k);
        assert(instr_done(k) && crate::parse::instr_linked(k, p.blocks.len()));
    }
    match &block.contents[i].kind {
        InstrKind::If { condition, if_block, .. } => {
            match e.eval_condition(vars, &condition.kind) {
                Ok(true) => {
                    if depth == 0 {
                        None
                    } else {
                        eval_block(parsed, *if_block, e, vars, config, depth - 1, Ghost(ctx))
                    }
                },
                Ok(false) => Some(Ok(EvalResult::new())),
                Err(msg) => Some(Err(ScriptEvalError::Evaluator(msg))),
            }
        },
        InstrKind::Call(routine) => {
            let name = match routine {
                Later::Full(n) => n.as_str(),
                Later::Empty => "",
            };
            match parsed.get_routine(name) {
                Some(id) => {
                    if depth == 0 {
                        None
                    } else {
                        eval_block(parsed, id, e, vars, config, depth - 1, Ghost(ctx))
                    }
                },
                None => Some(Err(ScriptEvalError::RoutineMissing(crate::text::owned(name)))),
            }
        },
        kind => Some(eval_simple(kind, e, vars, config, Ghost(ctx))),
    }
}

/// The most levels of nested blocks that evaluating a script follows: as many as a
/// `u64` counts, more than any run of the game's scripts reaches.
pub open spec fn full_depth() -> nat {
    u64::MAX as nat
}

/// Evaluating the install routine of a script, following nested blocks to `depth` levels.
pub open spec fn spec_eval_package_to(p: SParsed, depth: nat, ctx: EvalCtx, st: EvalSt) -> EvalOutcome {
    if p.routines.contains_key(install_routine()) && 1 <= p.routines[install_routine()] <= p.blocks.len() {
        spec_eval_block(p, depth, ctx, p.routines[install_routine()] as int, st)
    } else {
        EvalOutcome::Fail(SScriptEvalError::RoutineMissing(install_routine()))
    }
}

/// Evaluating the install routine of a script.
pub open spec fn spec_eval_package(p: SParsed, ctx: EvalCtx, st: EvalSt) -> EvalOutcome {
    spec_eval_package_to(p, full_depth(), ctx, st)
}

/// Evaluates the install routine to the given depth of nested blocks; `None` where the
/// blocks are nested deeper.
fn eval_package_to<E: ScriptEvaluator, V: VariableStore>(
    parsed: &Parsed,
    e: &mut E,
    vars: &mut V,
    config: &ScriptEvalConfig,
    depth: u64,
) -> (r: Option<Result<(), ScriptEvalError>>)
    requires
        parsed_done(parsed@),
        !(spec_eval_package_to(parsed@, depth as nat, ctx_of(*old(e), config.reason), st_of(*old(e), *old(vars))) is Panic),
    ensures
        match spec_eval_package_to(parsed@, depth as nat, ctx_of(*old(e), config.reason), st_of(*old(e), *old(vars))) {
            EvalOutcome::Done(st, _) => r matches Some(Ok(_)) && final(vars).vars() == st.vars && final(e).outputs()
                == st.outputs,
            EvalOutcome::Fail(err) => r matches Some(Err(x)) && x@ == err,
            EvalOutcome::Panic => false,
            EvalOutcome::TooDeep => r is None,
        },
{
    proof {
        crate::routine::lemma_routine_literals();
    }
    let ghost ctx = ctx_of(*e, config.reason);
    let id = match parsed.get_routine(INSTALL_ROUTINE) {
        Some(id) => id,
        None => {
            return Some(Err(ScriptEvalError::RoutineMissing(crate::text::owned(INSTALL_ROUTINE))));
        },
    };
    proof {
        assert(parsed@.routines.contains_key(install_routine()));
    }
    match eval_block(parsed, id, e, vars, config, depth, Ghost(ctx)) {
        Some(Ok(_)) => Some(Ok(())),
        Some(Err(err)) => Some(Err(err)),
        None => None,
    }
}

/// Evaluate a script package install routine with a script evaluator
pub fn eval_script_package<E: ScriptEvaluator, V: VariableStore>(
    parsed: &Parsed,
    e: &mut E,
    vars: &mut V,
    config: &ScriptEvalConfig,
) -> (r: Result<(), ScriptEvalError>)
    requires
        parsed_done(parsed@),
        !(spec_eval_package(parsed@, ctx_of(*old(e), config.reason), st_of(*old(e), *old(vars))) is Panic),
        !(spec_eval_package(parsed@, ctx_of(*old(e), config.reason), st_of(*old(e), *old(vars))) is TooDeep),
    ensures
        match spec_eval_package(parsed@, ctx_of(*old(e), config.reason), st_of(*old(e), *old(vars))) {
            EvalOutcome::Done(st, _) => r is Ok && final(vars).vars() == st.vars && final(e).outputs() == st.outputs,
            EvalOutcome::Fail(err) => r matches Err(x) && x@ == err,
            EvalOutcome::Panic => false,
            EvalOutcome::TooDeep => false,
        },
{
    match eval_package_to(parsed, e, vars, config, u64::MAX) {
        Some(r) => r,
        None => vstd::pervasive::unreached(),
    }
}

/// Every addon instruction of the script names its kind.
pub open spec fn addons_have_kinds(p: SParsed) -> bool {
    forall|b: int, i: int|
        0 <= b < p.blocks.len() && 0 <= i < p.blocks[b].contents.len() ==> (
        #[trigger] p.blocks[b].contents[i] matches SInstrKind::Addon { kind, .. } ==> kind is Some)
}

proof fn lemma_block_no_panic(p: SParsed, depth: nat, ctx: EvalCtx, b: int, st: EvalSt)
    requires
        parsed_done(p),
        1 <= b <= p.blocks.len(),
        addons_have_kinds(p) || ctx.reason is Resolve,
    ensures
        !(spec_eval_block(p, depth, ctx, b, st) is Panic),
    decreases depth, 1nat, 0nat,
{
    lemma_instrs_no_panic(p, depth, ctx, b, p.blocks[b - 1].contents.len(), st);
}

proof fn lemma_instrs_no_panic(p: SParsed, depth: nat, ctx: EvalCtx, b: int, n: nat, st: EvalSt)
    requires
        parsed_done(p),
        1 <= b <= p.blocks.len(),
        n <= p.blocks[b - 1].contents.len(),
        addons_have_kinds(p) || ctx.reason is Resolve,
    ensures
        !(spec_eval_instrs(p, depth, ctx, b, n, st) is Panic),
    decreases depth, 0nat, n,
{
    if n > 0 {
        lemma_instrs_no_panic(p, depth, ctx, b, (n - 1) as nat, st);
        match spec_eval_instrs(p, depth, ctx, b, (n - 1) as nat, st) {
            EvalOutcome::Done(st2, false) => {
                lemma_instr_no_panic(p, depth, ctx, b, n - 1, st2);
            },
            _ => {},
        }
    }
}

proof fn lemma_instr_no_panic(p: SParsed, depth: nat, ctx: EvalCtx, b: int, i: int, st: EvalSt)
    requires
        parsed_done(p),
        1 <= b <= p.blocks.len(),
        0 <= i < p.blocks[b - 1].contents.len(),
        addons_have_kinds(p) || ctx.reason is Resolve,
    ensures
        !(spec_eval_instr(p, depth, ctx, b, i, st) is Panic),
    decreases depth, 0nat, 0nat,
{
    let k = p.blocks[b - 1].contents[i];
    assert(p.blocks[(b - 1)].contents[i] == k);
    assert(crate::parse::instr_linked(p.blocks[b - 1].contents[i], p.blocks.len()));
    match k {
        SInstrKind::If { condition, if_block, .. } => {
            if (ctx.cond)(condition, st.vars) == Some(true) && depth > 0 {
                lemma_block_no_panic(p, (depth - 1) as nat, ctx, if_block as int, st);
            }
        },
        SInstrKind::Call(t) => {
            if p.routines.contains_key(later_value(t)) && depth > 0 {
                lemma_block_no_panic(p, (depth - 1) as nat, ctx, p.routines[later_value(t)] as int, st);
            }
        },
        SInstrKind::Addon { kind, .. } => {
            assert(kind is Some || ctx.reason is Resolve);
            assert(!(spec_eval_simple(ctx, k, st) is Panic));
        },
        SInstrKind::Require(groups) => {
            lemma_require_no_panic(ctx, groups, st);
        },
        _ => {
            assert(!(spec_eval_simple(ctx, k, st) is Panic));
        },
    }
}

/// Following nested blocks deeper changes nothing once they are followed deep enough:
/// where evaluating a block to `depth` levels does not run out of depth, evaluating it to
/// any greater depth gives the same outcome.
pub proof fn law_deeper_evaluation_agrees(p: SParsed, depth: nat, more: nat, ctx: EvalCtx, b: int, st: EvalSt)
    requires
        parsed_done(p),
        1 <= b <= p.blocks.len(),
        depth <= more,
        !(spec_eval_block(p, depth, ctx, b, st) is TooDeep),
    ensures
        spec_eval_block(p, more, ctx, b, st) == spec_eval_block(p, depth, ctx, b, st),
    decreases depth, 1nat, 0nat,
{
    lemma_instrs_deeper(p, depth, more, ctx, b, p.blocks[b - 1].contents.len(), st);
}

proof fn lemma_instrs_deeper(p: SParsed, depth: nat, more: nat, ctx: EvalCtx, b: int, n: nat, st: EvalSt)
    requires
        parsed_done(p),
        1 <= b <= p.blocks.len(),
        n <= p.blocks[b - 1].contents.len(),
        depth <= more,
        !(spec_eval_instrs(p, depth, ctx, b, n, st) is TooDeep),
    ensures
        spec_eval_instrs(p, more, ctx, b, n, st) == spec_eval_instrs(p, depth, ctx, b, n, st),
    decreases depth, 0nat, n,
{
    if n > 0 {
        let prev = spec_eval_instrs(p, depth, ctx, b, (n - 1) as nat, st);
        if !(prev is TooDeep) {
            lemma_instrs_deeper(p, depth, more, ctx, b, (n - 1) as nat, st);
        }
        match prev {
            EvalOutcome::Done(st2, false) => {
                lemma_instr_deeper(p, depth, more, ctx, b, n - 1, st2);
            },
            _ => {},
        }
    }
}

proof fn lemma_instr_deeper(p: SParsed, depth: nat, more: nat, ctx: EvalCtx, b: int, i: int, st: EvalSt)
    requires
        parsed_done(p),
        1 <= b <= p.blocks.len(),
        0 <= i < p.blocks[b - 1].contents.len(),
        depth <= more,
        !(spec_eval_instr(p, depth, ctx, b, i, st) is TooDeep),
    ensures
        spec_eval_instr(p, more, ctx, b, i, st) == spec_eval_instr(p, depth, ctx, b, i, st),
    decreases depth, 0nat, 0nat,
{
    let k = p.blocks[b - 1].contents[i];
    assert(p.blocks[(b - 1)].contents[i] == k);
    assert(crate::parse::instr_linked(p.blocks[b - 1].contents[i], p.blocks.len()));
    match k {
        SInstrKind::If { condition, if_block, .. } => {
            if (ctx.cond)(condition, st.vars) == Some(true) {
                law_deeper_evaluation_agrees(p, (depth - 1) as nat, (more - 1) as nat, ctx, if_block as int, st);
            }
        },
        SInstrKind::Call(t) => {
            if p.routines.contains_key(later_value(t)) {
                assert(parsed_done(p));
                law_deeper_evaluation_agrees(
                    p,
                    (depth - 1) as nat,
                    (more - 1) as nat,
                    ctx,
                    p.routines[later_value(t)] as int,
                    st,
                );
            }
        },
        _ => {},
    }
}

/// Where the blocks of a script are ranked, evaluating a block never runs out of depth
/// when it may follow as many levels of nesting as the block's rank.
pub proof fn law_ranked_script_is_not_too_deep(
    p: SParsed,
    rank: spec_fn(int) -> nat,
    depth: nat,
    ctx: EvalCtx,
    b: int,
    st: EvalSt,
)
    requires
        ranked(p, rank),
        parsed_done(p),
        1 <= b <= p.blocks.len(),
        rank(b) <= depth,
    ensures
        !(spec_eval_block(p, depth, ctx, b, st) is TooDeep),
    decreases depth, 1nat, 0nat,
{
    lemma_ranked_instrs(p, rank, depth, ctx, b, p.blocks[b - 1].contents.len(), st);
}

proof fn lemma_ranked_instrs(
    p: SParsed,
    rank: spec_fn(int) -> nat,
    depth: nat,
    ctx: EvalCtx,
    b: int,
    n: nat,
    st: EvalSt,
)
    requires
        ranked(p, rank),
        parsed_done(p),
        1 <= b <= p.blocks.len(),
        n <= p.blocks[b - 1].contents.len(),
        rank(b) <= depth,
    ensures
        !(spec_eval_instrs(p, depth, ctx, b, n, st) is TooDeep),
    decreases depth, 0nat, n,
{
    if n > 0 {
        lemma_ranked_instrs(p, rank, depth, ctx, b, (n - 1) as nat, st);
        match spec_eval_instrs(p, depth, ctx, b, (n - 1) as nat, st) {
            EvalOutcome::Done(st2, false) => {
                lemma_ranked_instr(p, rank, depth, ctx, b, n - 1, st2);
            },
            _ => {},
        }
    }
}

proof fn lemma_ranked_instr(
    p: SParsed,
    rank: spec_fn(int) -> nat,
    depth: nat,
    ctx: EvalCtx,
    b: int,
    i: int,
    st: EvalSt,
)
    requires
        ranked(p, rank),
        parsed_done(p),
        1 <= b <= p.blocks.len(),
        0 <= i < p.blocks[b - 1].contents.len(),
        rank(b) <= depth,
    ensures
        !(spec_eval_instr(p, depth, ctx, b, i, st) is TooDeep),
    decreases depth, 0nat, 0nat,
{
    let k = p.blocks[b - 1].contents[i];
    assert(p.blocks[(b - 1)].contents[i] == k);
    assert(instr_ranked(p, rank, (b - 1) + 1, p.blocks[b - 1].contents[i]));
    assert(crate::parse::instr_linked(p.blocks[b - 1].contents[i], p.blocks.len()));
    match k {
        SInstrKind::If { condition, if_block, .. } => {
            assert(instr_ranked(p, rank, b, k));
            assert(rank(if_block as int) < rank(b));
            if (ctx.cond)(condition, st.vars) == Some(true) {
                law_ranked_script_is_not_too_deep(p, rank, (depth - 1) as nat, ctx, if_block as int, st);
            }
        },
        SInstrKind::Call(t) => {
            assert(instr_ranked(p, rank, b, k));
            if p.routines.contains_key(later_value(t)) {
                assert(rank(p.routines[later_value(t)] as int) < rank(b));
                law_ranked_script_is_not_too_deep(
                    p,
                    rank,
                    (depth - 1) as nat,
                    ctx,
                    p.routines[later_value(t)] as int,
                    st,
                );
            }
        },
        SInstrKind::Require(groups) => {
            lemma_require_not_deep(ctx, groups, st);
        },
        _ => {
            assert(!(spec_eval_simple(ctx, k, st) is TooDeep));
        },
    }
}

proof fn lemma_require_not_deep(ctx: EvalCtx, groups: Seq<Seq<SPackage>>, st: EvalSt)
    ensures
        !(spec_require(ctx, groups, st) is TooDeep),
    decreases groups.len(),
{
    if groups.len() > 0 {
        lemma_require_not_deep(ctx, groups.drop_last(), st);
    }
}

proof fn lemma_require_no_panic(ctx: EvalCtx, groups: Seq<Seq<SPackage>>, st: EvalSt)
    ensures
        !(spec_require(ctx, groups, st) is Panic),
    decreases groups.len(),
{
    if groups.len() > 0 {
        lemma_require_no_panic(ctx, groups.drop_last(), st);
    }
}

/// Whether every addon instruction of the script names its kind
pub fn all_addons_have_kinds(parsed: &Parsed) -> (r: bool)
    ensures
        r == addons_have_kinds(parsed@),
{
    let ghost p = parsed@;
    let n = parsed.block_count();
    let mut b: usize = 0;
    while b < n
        invariant
            p == parsed@,
            n == p.blocks.len(),
            b <= n,
            forall|x: int, i: int|
                0 <= x < b && 0 <= i < p.blocks[x].contents.len() ==> (
                #[trigger] p.blocks[x].contents[i] matches SInstrKind::Addon { kind, .. } ==> kind is Some),
        decreases n - b,
    {
        let block = parsed.block_at(b);
        let mut i: usize = 0;
        while i < block.contents.len()
            invariant
                p == parsed@,
                n == p.blocks.len(),
                b < n,
                block@ == p.blocks[b as int],
                i <= block.contents@.len(),
                forall|x: int, j: int|
                    0 <= x < b && 0 <= j < p.blocks[x].contents.len() ==> (
                    #[trigger] p.blocks[x].contents[j] matches SInstrKind::Addon { kind, .. } ==> kind is Some),
                forall|j: int|
                    0 <= j < i ==> (#[trigger] p.blocks[b as int].contents[j] matches SInstrKind::Addon {
                        kind,
                        ..
                    } ==> kind is Some),
            decreases block.contents@.len() - i,
        {
            proof {
                assert(block.contents@[i as int].kind@ == p.blocks[b as int].contents[i as int]);
            }
            match &block.contents[i].kind {
                InstrKind::Addon { kind: None, .. } => {
                    return false;
                },
                _ => {},
            }
            i = i + 1;
        }
        b = b + 1;
    }
    true
}

/// The most levels of nested blocks that a checked evaluation follows.
pub const MAX_CHECKED_DEPTH: u64 = 256;

/// Evaluate a script package install routine with a script evaluator, where running it
/// reaches no addon without a kind and nests its blocks at most `MAX_CHECKED_DEPTH` levels
/// deep: `None`, with nothing evaluated, where an addon lacks its kind when installing, and
/// `None` where the blocks are nested deeper
pub fn eval_script_package_checked<E: ScriptEvaluator, V: VariableStore>(
    parsed: &Parsed,
    e: &mut E,
    vars: &mut V,
    config: &ScriptEvalConfig,
) -> (r: Option<Result<(), ScriptEvalError>>)
    requires
        parsed_done(parsed@),
    ensures
        config.reason is Install && !addons_have_kinds(parsed@) ==> r is None && *final(e) == *old(e)
            && *final(vars) == *old(vars),
        !(config.reason is Install && !addons_have_kinds(parsed@)) ==> match spec_eval_package_to(
            parsed@,
            MAX_CHECKED_DEPTH as nat,
            ctx_of(*old(e), config.reason),
            st_of(*old(e), *old(vars)),
        ) {
            EvalOutcome::Done(st, _) => r matches Some(Ok(_)) && final(vars).vars() == st.vars && final(e).outputs()
                == st.outputs,
            EvalOutcome::Fail(err) => r matches Some(Err(x)) && x@ == err,
            EvalOutcome::Panic => false,
            EvalOutcome::TooDeep => r is None,
        },
        r is Some ==> spec_eval_package_to(
            parsed@,
            MAX_CHECKED_DEPTH as nat,
            ctx_of(*old(e), config.reason),
            st_of(*old(e), *old(vars)),
        ) == spec_eval_package(parsed@, ctx_of(*old(e), config.reason), st_of(*old(e), *old(vars))),
{
    proof {
        let p = parsed@;
        let ctx = ctx_of(*e, config.reason);
        let st = st_of(*e, *vars);
        if p.routines.contains_key(install_routine()) && 1 <= p.routines[install_routine()] <= p.blocks.len()
            && !(spec_eval_package_to(p, MAX_CHECKED_DEPTH as nat, ctx, st) is TooDeep) {
            law_deeper_evaluation_agrees(
                p,
                MAX_CHECKED_DEPTH as nat,
                full_depth(),
                ctx,
                p.routines[install_routine()] as int,
                st,
            );
        }
    }
    if config.reason == EvalReason::Install && !all_addons_have_kinds(parsed) {
        return None;
    }
    proof {
        let p = parsed@;
        let ctx = ctx_of(*e, config.reason);
        crate::routine::lemma_routine_literals();
        if p.routines.contains_key(install_routine()) && 1 <= p.routines[install_routine()] <= p.blocks.len() {
            lemma_block_no_panic(p, MAX_CHECKED_DEPTH as nat, ctx, p.routines[install_routine()] as int, st_of(*e, *vars));
        }
    }
    eval_package_to(parsed, e, vars, config, MAX_CHECKED_DEPTH)
}

} // verus!
