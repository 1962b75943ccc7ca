//! Errors of package script parsing, and the reasons that a script can fail with.

use vstd::prelude::*;

use crate::lex::{SToken, TextPos, Token};
use crate::text::str_eq;

verus! {

/// Why a package script could not be parsed
#[derive(Debug, Clone, PartialEq)]
pub enum ParseError {
    /// A token that does not fit where it stands
    UnexpectedToken(Token, TextPos),
    /// A routine that starts inside a nested block
    UnexpectedRoutine(TextPos),
    /// A condition name that is not known
    UnknownCondition(String, TextPos),
    /// A condition argument that is not known
    UnknownConditionArgument(String, TextPos),
    /// An instruction name that is not known
    UnknownInstruction(String, TextPos),
    /// An instruction that ended before all of its arguments were given
    IncompleteInstruction(TextPos),
    /// A modloader argument that is not known
    InvalidModloader,
    /// A plugin loader argument that is not known
    InvalidPluginLoader,
    /// A side argument that is not known
    InvalidSide,
    /// A fail reason that is not known
    UnknownFailReason(String, TextPos),
    /// A call of a routine whose name is reserved
    ReservedRoutineCall(String, TextPos),
    /// An addon without a filename
    MissingAddonFilename,
    /// An addon key that is not known
    UnknownAddonKey(String, TextPos),
}

/// The mathematical value of a parse error.
pub enum SParseError {
    UnexpectedToken(SToken, (nat, nat)),
    UnexpectedRoutine((nat, nat)),
    UnknownCondition(Seq<char>, (nat, nat)),
    UnknownConditionArgument(Seq<char>, (nat, nat)),
    UnknownInstruction(Seq<char>, (nat, nat)),
    IncompleteInstruction((nat, nat)),
    InvalidModloader,
    InvalidPluginLoader,
    InvalidSide,
    UnknownFailReason(Seq<char>, (nat, nat)),
    ReservedRoutineCall(Seq<char>, (nat, nat)),
    MissingAddonFilename,
    UnknownAddonKey(Seq<char>, (nat, nat)),
}

impl View for ParseError {
    type V = SParseError;

    open spec fn view(&self) -> SParseError {
        match self {
            ParseError::UnexpectedToken(t, p) => SParseError::UnexpectedToken(t@, p@),
            ParseError::UnexpectedRoutine(p) => SParseError::UnexpectedRoutine(p@),
            ParseError::UnknownCondition(s, p) => SParseError::UnknownCondition(s@, p@),
            ParseError::UnknownConditionArgument(s, p) => SParseError::UnknownConditionArgument(
                s@,
                p@,
            ),
            ParseError::UnknownInstruction(s, p) => SParseError::UnknownInstruction(s@, p@),
            ParseError::IncompleteInstruction(p) => SParseError::IncompleteInstruction(p@),
            ParseError::InvalidModloader => SParseError::InvalidModloader,
            ParseError::InvalidPluginLoader => SParseError::InvalidPluginLoader,
            ParseError::InvalidSide => SParseError::InvalidSide,
            ParseError::UnknownFailReason(s, p) => SParseError::UnknownFailReason(s@, p@),
            ParseError::ReservedRoutineCall(s, p) => SParseError::ReservedRoutineCall(s@, p@),
            ParseError::MissingAddonFilename => SParseError::MissingAddonFilename,
            ParseError::UnknownAddonKey(s, p) => SParseError::UnknownAddonKey(s@, p@),
        }
    }
}

/// The error for a token that does not fit where it stands.
pub fn unexpected(tok: &Token, pos: TextPos) -> (r: ParseError)
    ensures
        r@ == SParseError::UnexpectedToken(tok@, pos@),
{
    ParseError::UnexpectedToken(tok.duplicate(), pos)
}

/// Reason why the package reported a failure
#[derive(Debug, Clone, Copy, PartialEq, Eq, Structural)]
pub enum FailReason {
    Unspecified,
    UnsupportedVersion,
    UnsupportedModloader,
    UnsupportedPluginLoader,
    UnsupportedFeatures,
    UnsupportedOperatingSystem,
}

/// The fail reason that a script names; the name of the operating system reason gives
/// the feature set reason.
pub open spec fn spec_fail_reason(s: Seq<char>) -> Option<FailReason> {
    if s == "unsupported_version"@ {
        Some(FailReason::UnsupportedVersion)
    } else if s == "unsupported_modloader"@ {
        Some(FailReason::UnsupportedModloader)
    } else if s == "unsupported_plugin_loader"@ {
        Some(FailReason::UnsupportedPluginLoader)
    } else if s == "unsupported_features"@ {
        Some(FailReason::UnsupportedFeatures)
    } else if s == "unsupported_operating_system"@ {
        Some(FailReason::UnsupportedFeatures)
    } else {
        None
    }
}

impl FailReason {
    pub fn from_string(string: &str) -> (r: Option<FailReason>)
        ensures
            r == spec_fail_reason(string@),
    {
        if str_eq(string, "unsupported_version") {
            Some(FailReason::UnsupportedVersion)
        } else if str_eq(string, "unsupported_modloader") {
            Some(FailReason::UnsupportedModloader)
        } else if str_eq(string, "unsupported_plugin_loader") {
            Some(FailReason::UnsupportedPluginLoader)
        } else if str_eq(string, "unsupported_features") {
            Some(FailReason::UnsupportedFeatures)
        } else if str_eq(string, "unsupported_operating_system") {
            Some(FailReason::UnsupportedFeatures)
        } else {
            None
        }
    }

    /// The message shown for this reason.
    pub fn message(&self) -> (r: &'static str)
        ensures
            r@ == spec_fail_message(*self),
    {
        match self {
            FailReason::Unspecified => "",
            FailReason::UnsupportedVersion => "Unsupported Minecraft version",
            FailReason::UnsupportedModloader => "Unsupported modloader",
            FailReason::UnsupportedPluginLoader => "Unsupported plugin loader",
            FailReason::UnsupportedFeatures => "Unsupported feature set",
            FailReason::UnsupportedOperatingSystem => "Unsupported operating system",
        }
    }
}

/// The message shown for a fail reason.
pub open spec fn spec_fail_message(r: FailReason) -> Seq<char> {
    match r {
        FailReason::Unspecified => ""@,
        FailReason::UnsupportedVersion => "Unsupported Minecraft version"@,
        FailReason::UnsupportedModloader => "Unsupported modloader"@,
        FailReason::UnsupportedPluginLoader => "Unsupported plugin loader"@,
        FailReason::UnsupportedFeatures => "Unsupported feature set"@,
        FailReason::UnsupportedOperatingSystem => "Unsupported operating system"@,
    }
}

} // verus!
