//! A script evaluator that answers conditions from the facts of one installation
//! and collects what the script outputs

use vstd::prelude::*;

use crate::conditions::{cond_view, ConditionKind, SCondition};
use crate::script_eval::{EvalOutput, SEvalOutput, ScriptEvaluator};
use crate::shared::GameSide;
use crate::text::{owned, str_eq, strings_contain};
use crate::vars::{spec_value_get, VariableStore};

verus! {

/// Evaluates conditions against the side and the enabled features of an
/// installation, and keeps every output of the script in order
pub struct CollectingEvaluator {
    /// The side of the game that is installed
    pub side: GameSide,
    /// The features that are enabled
    pub features: Vec<String>,
    /// What the script has output so far
    pub outputs: Vec<EvalOutput>,
}

/// The answer to a condition for an installation of the given side and features;
/// `None` where the condition cannot be answered from them.
pub open spec fn spec_check_condition(
    side: GameSide,
    features: Seq<Seq<char>>,
    c: SCondition,
    vars: Map<Seq<char>, Seq<char>>,
) -> Option<bool>
    decreases c,
{
    match c {
        SCondition::Not(Some(inner)) => match spec_check_condition(side, features, *inner, vars) {
            Some(b) => Some(!b),
            None => None,
        },
        SCondition::And(left, Some(right)) => match spec_check_condition(side, features, *left, vars) {
            Some(true) => spec_check_condition(side, features, *right, vars),
            Some(false) => Some(false),
            None => None,
        },
        SCondition::Or(left, Some(right)) => match spec_check_condition(side, features, *left, vars) {
            Some(true) => Some(true),
            Some(false) => spec_check_condition(side, features, *right, vars),
            None => None,
        },
        SCondition::Side(Some(s)) => Some(s == side),
        SCondition::Feature(v) => match spec_value_get(v, vars) {
            Some(f) => Some(features.contains(f)),
            None => None,
        },
        SCondition::Value(a, b) => match (spec_value_get(a, vars), spec_value_get(b, vars)) {
            (Some(x), Some(y)) => Some(x == y),
            _ => None,
        },
        SCondition::Defined(v) => match spec_value_get(v, vars) {
            Some(name) => Some(vars.contains_key(name)),
            None => None,
        },
        _ => None,
    }
}

/// The message with which answering a condition fails for an installation of the given
/// side and features: that of the first part of the condition that cannot be answered.
pub open spec fn spec_check_message(
    side: GameSide,
    features: Seq<Seq<char>>,
    c: SCondition,
    vars: Map<Seq<char>, Seq<char>>,
) -> Seq<char>
    decreases c,
{
    match c {
        SCondition::Not(Some(inner)) => spec_check_message(side, features, *inner, vars),
        SCondition::And(left, Some(right)) => match spec_check_condition(side, features, *left, vars) {
            Some(true) => spec_check_message(side, features, *right, vars),
            _ => spec_check_message(side, features, *left, vars),
        },
        SCondition::Or(left, Some(right)) => match spec_check_condition(side, features, *left, vars) {
            Some(false) => spec_check_message(side, features, *right, vars),
            _ => spec_check_message(side, features, *left, vars),
        },
        SCondition::Feature(_) => "The feature of the condition could not be read"@,
        SCondition::Value(..) => "A value of the condition could not be read"@,
        SCondition::Defined(_) => "The variable name of the condition could not be read"@,
        _ => "The condition cannot be answered by this evaluator"@,
    }
}

impl CollectingEvaluator {
    /// Creates an evaluator for an installation with no output yet
    pub fn new(side: GameSide, features: Vec<String>) -> (r: Self)
        ensures
            r.side == side,
            r.features.deep_view() == features.deep_view(),
            r.outputs@.len() == 0,
    {
        CollectingEvaluator { side, features, outputs: Vec::new() }
    }

    /// Answers a condition
    fn check<V: VariableStore>(&self, vars: &V, condition: &ConditionKind) -> (r: Result<bool, String>)
        ensures
            match spec_check_condition(self.side, self.features.deep_view(), cond_view(*condition), vars.vars()) {
                Some(b) => r matches Ok(x) && x == b,
                None => r is Err,
            },
            r matches Err(m) ==> m@ == spec_check_message(
                self.side,
                self.features.deep_view(),
                cond_view(*condition),
                vars.vars(),
            ),
        decreases condition,
    {
        match condition {
            ConditionKind::Not(Some(inner)) => match self.check(vars, inner) {
                Ok(b) => Ok(!b),
                Err(e) => Err(e),
            },
            ConditionKind::And(left, Some(right)) => match self.check(vars, left) {
                Ok(true) => self.check(vars, right),
                Ok(false) => Ok(false),
                Err(e) => Err(e),
            },
            ConditionKind::Or(left, Some(right)) => match self.check(vars, left) {
                Ok(true) => Ok(true),
                Ok(false) => self.check(vars, right),
                Err(e) => Err(e),
            },
            ConditionKind::Side(Some(s)) => Ok(*s == self.side),
            ConditionKind::Feature(v) => match v.get(vars) {
                Ok(f) => Ok(strings_contain(&self.features, f.as_str())),
                Err(_) => Err(owned("The feature of the condition could not be read")),
            },
            ConditionKind::Value(a, b) => match (a.get(vars), b.get(vars)) {
                (Ok(x), Ok(y)) => Ok(str_eq(x.as_str(), y.as_str())),
                _ => Err(owned("A value of the condition could not be read")),
            },
            ConditionKind::Defined(v) => match v.get(vars) {
                Ok(name) => Ok(vars.var_exists(name.as_str())),
                Err(_) => Err(owned("The variable name of the condition could not be read")),
            },
            _ => Err(owned("The condition cannot be answered by this evaluator")),
        }
    }
}

impl ScriptEvaluator for CollectingEvaluator {
    open spec fn condition_result(&self, c: SCondition, vars: Map<Seq<char>, Seq<char>>) -> Option<bool> {
        spec_check_condition(self.side, self.features.deep_view(), c, vars)
    }

    open spec fn condition_error(&self, c: SCondition, vars: Map<Seq<char>, Seq<char>>) -> Seq<char> {
        spec_check_message(self.side, self.features.deep_view(), c, vars)
    }

    open spec fn accepts(&self, out: SEvalOutput) -> bool {
        true
    }

    open spec fn output_error(&self, out: SEvalOutput) -> Seq<char> {
        Seq::empty()
    }

    open spec fn outputs(&self) -> Seq<SEvalOutput> {
        self.outputs@.map_values(|o: EvalOutput| o@)
    }

    fn eval_condition<V: VariableStore>(&mut self, vars: &V, condition: &ConditionKind) -> (r: Result<bool, String>) {
        self.check(vars, condition)
    }

    fn output(&mut self, out: EvalOutput) -> (r: Result<(), String>) {
        self.outputs.push(out);
        proof {
            assert(self.outputs() =~= old(self).outputs().push(out@));
        }
        Ok(())
    }
}

} // verus!
