//! Verified core logic of the MCVM launcher: the package script lexer,
//! parser and evaluation helpers, package metadata, and instance bookkeeping.

pub mod text;
pub mod order;
pub mod lex;
pub mod vars;
pub mod shared;
pub mod routine;
pub mod parse_error;
pub mod conditions;
pub mod instruction;
pub mod require;
pub mod parse;
pub mod addon;
pub mod paths;
pub mod lock;
pub mod strmap;
pub mod user;
pub mod java;
pub mod instance;
pub mod update;
pub mod persistent;
pub mod version;
pub mod storage;
pub mod assets;
pub mod pkg;
pub mod repo;
pub mod script_eval;
pub mod call_graph;
pub mod evaluator;
pub mod resolve;
pub mod options;
pub mod client_options;
pub mod modpack;
pub mod launch_process;
pub mod config;
pub mod launch_args;
pub mod select;
