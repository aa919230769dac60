//! The command namespace: the reserved built-in names and the closed
//! set of executable built-in handlers.
//!
//! The namespace is two-tiered on purpose: a name can be acknowledged
//! as built-in terminology (the reserved keywords) separately from
//! having an executing handler.  Here the two sets coincide (`cd` and
//! `pwd`), but the dispatcher keeps both checks so that keyword
//! acknowledgement and execution share one lookup path.

use vstd::prelude::*;

use crate::strutil::str_eq;

verus! {

/// The executable built-ins, as a closed tagged variant.
#[derive(Clone, Copy, PartialEq, Eq, Structural, Debug)]
pub enum Builtin {
    ChangeDirectory,
    PrintWorkingDirectory,
}

/// Whether `name` is a reserved built-in keyword.
pub open spec fn is_reserved_name(name: Seq<char>) -> bool {
    name == "pwd"@ || name == "cd"@
}

/// The executing handler registered for `name`, if any.
pub open spec fn handler_of(name: Seq<char>) -> Option<Builtin> {
    if name == "cd"@ {
        Some(Builtin::ChangeDirectory)
    } else if name == "pwd"@ {
        Some(Builtin::PrintWorkingDirectory)
    } else {
        None
    }
}

/// Reports whether `cmd` is a reserved built-in keyword, and with
/// which acknowledgement message.
pub fn is_builtin(cmd: &str) -> (r: Option<&'static str>)
    ensures
        r is Some <==> is_reserved_name(cmd@),
        cmd@ == "pwd"@ ==> r is Some && r->0@ == "pwd is a shell builtin"@,
        cmd@ == "cd"@ ==> r is Some && r->0@ == "cd is a shell builtin"@,
{
    proof {
        reveal_strlit("pwd");
        reveal_strlit("cd");
        assert("pwd"@.len() == 3);
        assert("cd"@.len() == 2);
        assert("pwd"@ != "cd"@);
    }
    if str_eq(cmd, "pwd") {
        Some("pwd is a shell builtin")
    } else if str_eq(cmd, "cd") {
        Some("cd is a shell builtin")
    } else {
        None
    }
}

/// Looks `cmd` up in the registry of executing built-in handlers.
pub fn builtin_handler(cmd: &str) -> (r: Option<Builtin>)
    ensures
        r == handler_of(cmd@),
{
    proof {
        reveal_strlit("pwd");
        reveal_strlit("cd");
        assert("pwd"@.len() == 3);
        assert("cd"@.len() == 2);
        assert("pwd"@ != "cd"@);
    }
    if str_eq(cmd, "cd") {
        Some(Builtin::ChangeDirectory)
    } else if str_eq(cmd, "pwd") {
        Some(Builtin::PrintWorkingDirectory)
    } else {
        None
    }
}

} // verus!
