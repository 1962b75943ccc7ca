//! States of the addon instruction parser

use vstd::prelude::*;

use crate::shared::AddonKind;
use crate::vars::Value;

verus! {

/// State of the addon parser
#[derive(Debug, Clone, Copy, PartialEq, Eq, Structural)]
pub enum State {
    Id,
    FileName,
    OpenParen,
    Key,
    Colon,
    Value,
    Comma,
    Semicolon,
}

/// Current key for the addon parser
#[derive(Debug, Clone, Copy, PartialEq, Eq, Structural)]
pub enum Key {
    Unset,
    Kind,
    Url,
    Path,
    Version,
}

/// Keys that have been filled
#[derive(Debug)]
pub struct FilledKeys {
    pub kind: Option<AddonKind>,
    pub url: Value,
    pub path: Value,
    pub version: Value,
}

} // verus!
