//! The dispatcher: turns a parsed command line into a resolved,
//! side-effect-free execution decision.
//!
//! Resolution order: the reserved-keyword check, then the built-in
//! handler registry, then search-path resolution.  A reserved keyword
//! without an executing handler is only acknowledged; `cd` and `pwd`
//! proceed to built-in execution; a search-path match runs as an
//! external command; everything else is reported as not found.

use vstd::prelude::*;
use vstd::string::StrSliceExecFns;
use vstd::string::StringExecFns;

use crate::namespace::handler_of;
use crate::namespace::is_builtin;
use crate::namespace::is_reserved_name;
use crate::namespace::builtin_handler;
use crate::namespace::Builtin;
use crate::strutil::str_eq;

verus! {

/// What is to be done for one resolved command name.
#[derive(Debug, PartialEq, Eq)]
pub enum CommandAction {
    /// Write the keyword acknowledgement to the output sink and do
    /// nothing else.
    ReportKeyword(String),
    /// Execute the named built-in.
    RunBuiltin(Builtin),
    /// Launch the external program found at this full path.
    RunExternal(String),
    /// Write this message to the process's standard error stream,
    /// bypassing any error redirection.
    NotFound(String),
}

/// The message reported for a command that resolved nowhere.
pub open spec fn not_found_message(cmd: Seq<char>) -> Seq<char> {
    cmd + ": command not found"@
}

/// Decides what to do for command name `cmd`, given the result of
/// search-path resolution.
pub fn dispatch_command(cmd: &str, path_match: Option<String>) -> (r: CommandAction)
    ensures
        cmd@ == "cd"@ ==> r == (CommandAction::RunBuiltin(Builtin::ChangeDirectory)),
        cmd@ == "pwd"@ ==> r == (CommandAction::RunBuiltin(Builtin::PrintWorkingDirectory)),
        is_reserved_name(cmd@) && handler_of(cmd@) is None ==> r matches
            CommandAction::ReportKeyword(_),
        path_match matches Some(p) ==> (!is_reserved_name(cmd@) ==> r == (
        CommandAction::RunExternal(p))),
        !is_reserved_name(cmd@) && path_match is None ==> (r matches CommandAction::NotFound(m)
            && m@ == not_found_message(cmd@)),
{
    proof {
        reveal_strlit("pwd");
        reveal_strlit("cd");
        assert("pwd"@.len() == 3);
        assert("cd"@.len() == 2);
        assert("pwd"@ != "cd"@);
    }
    match is_builtin(cmd) {
        Some(msg) => {
            if str_eq(cmd, "cd") {
                CommandAction::RunBuiltin(Builtin::ChangeDirectory)
            } else if str_eq(cmd, "pwd") {
                CommandAction::RunBuiltin(Builtin::PrintWorkingDirectory)
            } else {
                CommandAction::ReportKeyword(String::from_str(msg))
            }
        },
        None => {
            match builtin_handler(cmd) {
                Some(b) => CommandAction::RunBuiltin(b),
                None => {
                    match path_match {
                        Some(p) => CommandAction::RunExternal(p),
                        None => {
                            let mut m = String::from_str(cmd);
                            m.append(": command not found");
                            CommandAction::NotFound(m)
                        },
                    }
                },
            }
        },
    }
}

/// Splits a residual argument vector into the command name (element
/// zero) and the remaining arguments; an empty vector means there is
/// nothing to run.
pub fn split_command(args: Vec<String>) -> (r: Option<(String, Vec<String>)>)
    ensures
        r is None <==> args.deep_view().len() == 0,
        r matches Some(cv) ==> cv.0@ == args.deep_view()[0] && cv.1.deep_view()
            == args.deep_view().skip(1),
{
    if args.len() == 0 {
        return None;
    }
    let cmd = args[0].clone();
    let mut rest: Vec<String> = Vec::new();
    let mut i: usize = 1;
    while i < args.len()
        invariant
            1 <= i <= args.len(),
            rest.deep_view() =~= args.deep_view().subrange(1, i as int),
        decreases args.len() - i,
    {
        let ghost old_rest = rest.deep_view();
        rest.push(args[i].clone());
        proof {
            assert(rest.deep_view() =~= old_rest.push(args.deep_view()[i as int]));
            assert(rest.deep_view() =~= args.deep_view().subrange(1, i + 1));
        }
        i += 1;
    }
    proof {
        assert(rest.deep_view() =~= args.deep_view().skip(1));
    }
    Some((cmd, rest))
}

/// Where one output stream of a command is to go.
#[derive(Debug, PartialEq, Eq)]
pub enum SinkPlan {
    /// The process's own standard stream.
    Standard,
    /// This file, created or truncated.
    Truncate(String),
    /// This file, created if missing and appended to.
    Append(String),
}

/// Decides where a stream goes from its parsed redirection target and
/// append flag.
pub fn plan_sink(target: Option<String>, append: bool) -> (r: SinkPlan)
    ensures
        target is None ==> r == (SinkPlan::Standard),
        target matches Some(f) ==> ((append ==> r == (SinkPlan::Append(f))) && (!append ==> r
            == (SinkPlan::Truncate(f)))),
{
    match target {
        None => SinkPlan::Standard,
        Some(f) => if append {
            SinkPlan::Append(f)
        } else {
            SinkPlan::Truncate(f)
        },
    }
}

/// The characters of `s` after its last path separator; empty when
/// `s` is empty or ends with one.
pub open spec fn after_last_slash(s: Seq<char>) -> Seq<char>
    decreases s.len(),
{
    if s.len() == 0 {
        Seq::empty()
    } else if s[s.len() - 1] == '/' {
        Seq::empty()
    } else {
        after_last_slash(s.take(s.len() - 1)).push(s[s.len() - 1])
    }
}

/// The name an external command is displayed under in diagnostics:
/// the final path component, or the whole string when it has no
/// non-empty one.
pub open spec fn display_name_spec(s: Seq<char>) -> Seq<char> {
    if after_last_slash(s).len() > 0 {
        after_last_slash(s)
    } else {
        s
    }
}

proof fn lemma_after_last_slash_at(s: Seq<char>, b: int)
    requires
        0 <= b <= s.len(),
        forall|k: int| b <= k < s.len() ==> s[k] != '/',
        b > 0 ==> s[b - 1] == '/',
    ensures
        after_last_slash(s) == s.skip(b),
    decreases s.len() - b,
{
    if b == s.len() {
        assert(s.skip(b) =~= Seq::<char>::empty());
    } else {
        lemma_after_last_slash_at(s.take(s.len() - 1), b);
        assert(s.take(s.len() - 1).skip(b).push(s[s.len() - 1]) =~= s.skip(b));
    }
}

/// Computes the display name of an external command path.
pub fn file_display_name(path: &str) -> (r: String)
    ensures
        r@ == display_name_spec(path@),
{
    let n = path.unicode_len();
    let mut b: usize = n;
    while b > 0 && path.get_char(b - 1) != '/'
        invariant
            n == path@.len(),
            b <= n,
            forall|k: int| b <= k < n ==> path@[k] != '/',
        decreases b,
    {
        b -= 1;
    }
    proof {
        lemma_after_last_slash_at(path@, b as int);
        assert(path@.subrange(b as int, n as int) =~= path@.skip(b as int));
    }
    if b < n {
        String::from_str(path.substring_char(b, n))
    } else {
        String::from_str(path)
    }
}

/// The diagnostic written when launching a resolved external command
/// fails: the display name and the system error text.
pub fn launch_failure_message(display: &str, err: &str) -> (r: String)
    ensures
        r@ == display@ + ": "@ + err@,
{
    let mut m = String::from_str(display);
    m.append(": ");
    m.append(err);
    m
}

/// A command name absent from the built-in namespace and from every
/// directory on the search path is dispatched to exactly the
/// not-found report, with its message naming the command; no other
/// action can result.
pub proof fn lemma_unknown_command_not_found(
    cmd: Seq<char>,
    dirs: Seq<crate::pathsearch::SearchDir>,
    resolved: Option<String>,
    r: CommandAction,
)
    requires
        !is_reserved_name(cmd),
        handler_of(cmd) is None,
        forall|i: int| 0 <= i < dirs.len() ==> !crate::pathsearch::search_dir_has(dirs[i], cmd),
        // what check_cmd_in_path guarantees of its result on such directories
        resolved is None <==> (forall|i: int|
            0 <= i < dirs.len() ==> !crate::pathsearch::search_dir_has(dirs[i], cmd)),
        // what dispatch_command guarantees of its decision
        resolved is None ==> (r matches CommandAction::NotFound(m) && m@ == not_found_message(
            cmd,
        )),
    ensures
        r matches CommandAction::NotFound(m) && m@ == cmd + ": command not found"@,
{
}

} // verus!
