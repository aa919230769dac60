//! A minimal line-oriented shell front end, verified with Verus.
//!
//! The library covers the parts of the interpreter that are pure logic:
//! turning a raw input line into tokens, recognizing redirection
//! operators, resolving a command name against the built-in namespace
//! and a search path, and the state transitions of the `cd` / `pwd`
//! built-ins.  The surrounding process, filesystem and terminal I/O
//! live outside the library and hand it plain values.

use vstd::prelude::*;

mod cwd;
mod dispatch;
mod namespace;
mod pathsearch;
mod redirect;
mod strutil;
mod tokenizer;

pub use cwd::apply_cd_result;
pub use cwd::clean_error_message;
pub use cwd::handle_pwd;
pub use cwd::lemma_pwd_reflects_last_cd;
pub use cwd::resolve_cd_target;
pub use cwd::ShellState;
pub use dispatch::lemma_unknown_command_not_found;
pub use dispatch::dispatch_command;
pub use dispatch::file_display_name;
pub use dispatch::launch_failure_message;
pub use dispatch::plan_sink;
pub use dispatch::split_command;
pub use dispatch::CommandAction;
pub use dispatch::SinkPlan;
pub use namespace::builtin_handler;
pub use namespace::is_builtin;
pub use namespace::Builtin;
pub use pathsearch::check_cmd_in_path;
pub use pathsearch::join_path;
pub use pathsearch::split_search_path;
pub use pathsearch::SearchDir;
pub use redirect::parse_redirection;
pub use redirect::parse_redirection_spec;
pub use tokenizer::handle_quotes;
pub use tokenizer::join_spaces;
pub use tokenizer::lemma_tokenize_round_trip;
pub use tokenizer::normalized_content_spec;
pub use tokenizer::tokenize_spec;

verus! {

/// Tests whether a character separates tokens on a command line.
pub open spec fn is_space_char(c: char) -> bool {
    c == ' ' || c == '\t' || c == '\n' || c == '\r' || c == '\u{b}' || c == '\u{c}'
}

/// Executable counterpart of [`is_space_char`].
pub fn is_space(c: char) -> (r: bool)
    ensures
        r == is_space_char(c),
{
    c == ' ' || c == '\t' || c == '\n' || c == '\r' || c == '\u{b}' || c == '\u{c}'
}

} // verus!
