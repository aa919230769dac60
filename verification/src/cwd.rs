//! The working-directory state and the `cd` / `pwd` built-ins.
//!
//! The interpreter keeps one logical working directory for the whole
//! session, held in an explicit [`ShellState`] that is threaded
//! through the built-ins.  Only a successful change of directory
//! mutates it; printing the working directory reports the cached
//! value without consulting the operating system.  The operating
//! system's "set current directory" call itself happens outside the
//! library; its outcome is handed to [`apply_cd_result`] as a plain
//! value.

use vstd::prelude::*;
use vstd::string::StrSliceExecFns;
use vstd::string::StringExecFns;

use crate::strutil::trim_spec;
use crate::strutil::trim_str;

verus! {

/// The session state: the logical current working directory.
pub struct ShellState {
    pub cwd: String,
}

impl Default for ShellState {
    /// A fresh session starts at the filesystem root.
    fn default() -> (r: Self)
        ensures
            r.cwd@ == "/"@,
    {
        ShellState { cwd: String::from_str("/") }
    }
}

/// What `pwd` reports of a session state.
pub open spec fn pwd_view(st: ShellState) -> Seq<char> {
    st.cwd@
}

/// Reports the logical working directory as currently recorded.
pub fn handle_pwd(state: &ShellState) -> (r: String)
    ensures
        r@ == pwd_view(*state),
{
    state.cwd.clone()
}

/// The directory that `cd` aims at: no argument means the home
/// directory, and a leading `~` is replaced by the home directory
/// path.
pub open spec fn cd_target_spec(args: Seq<Seq<char>>, home: Seq<char>) -> Seq<char> {
    if args.len() == 0 {
        home
    } else if args[0].len() > 0 && args[0][0] == '~' {
        home + args[0].skip(1)
    } else {
        args[0]
    }
}

/// Resolves the target directory of a `cd` invocation.
pub fn resolve_cd_target(args: &Vec<String>, home: &str) -> (r: String)
    ensures
        r@ == cd_target_spec(args.deep_view(), home@),
{
    if args.len() == 0 {
        String::from_str(home)
    } else {
        let first = &args[0];
        proof {
            assert(args.deep_view()[0] == args@[0]@);
        }
        let flen = first.as_str().unicode_len();
        if flen > 0 && first.as_str().get_char(0) == '~' {
            let mut t = String::from_str(home);
            let rest = first.as_str().substring_char(1, flen);
            t.append(rest);
            proof {
                assert(first@.subrange(1, flen as int) =~= first@.skip(1));
            }
            t
        } else {
            first.clone()
        }
    }
}

/// What remains of `raw` after its first colon; empty when `raw` has
/// no colon.
pub open spec fn after_first_colon(s: Seq<char>) -> Seq<char>
    decreases s.len(),
{
    if s.len() == 0 {
        Seq::empty()
    } else if s[0] == ':' {
        s.skip(1)
    } else {
        after_first_colon(s.skip(1))
    }
}

proof fn lemma_after_first_colon_at(s: Seq<char>, i: int)
    requires
        0 <= i < s.len(),
        forall|k: int| 0 <= k < i ==> s[k] != ':',
        s[i] == ':',
    ensures
        after_first_colon(s) == s.skip(i + 1),
    decreases i,
{
    if i == 0 {
    } else {
        lemma_after_first_colon_at(s.skip(1), i - 1);
        assert(s.skip(1).skip(i) =~= s.skip(i + 1));
    }
}

proof fn lemma_after_first_colon_none(s: Seq<char>)
    requires
        forall|k: int| 0 <= k < s.len() ==> s[k] != ':',
    ensures
        after_first_colon(s) == Seq::<char>::empty(),
    decreases s.len(),
{
    if s.len() > 0 {
        lemma_after_first_colon_none(s.skip(1));
    }
}

/// The diagnostic text for a failed change of directory: the system
/// error text after its prefix (everything past the first colon),
/// trimmed, or a fixed fallback when that leaves nothing.
pub open spec fn clean_error_spec(raw: Seq<char>) -> Seq<char> {
    let t = trim_spec(after_first_colon(raw));
    if t.len() == 0 {
        "No such file or directory"@
    } else {
        t
    }
}

/// Cleans a system error text for display in a `cd` diagnostic.
pub fn clean_error_message(raw: &str) -> (r: String)
    ensures
        r@ == clean_error_spec(raw@),
{
    let n = raw.unicode_len();
    let mut i: usize = 0;
    while i < n && raw.get_char(i) != ':'
        invariant
            n == raw@.len(),
            i <= n,
            forall|k: int| 0 <= k < i ==> raw@[k] != ':',
        decreases n - i,
    {
        i += 1;
    }
    let t: String;
    if i < n {
        proof {
            lemma_after_first_colon_at(raw@, i as int);
            assert(raw@.subrange(i + 1, n as int) =~= raw@.skip(i + 1));
        }
        let rest = raw.substring_char(i + 1, n);
        t = trim_str(rest);
    } else {
        proof {
            lemma_after_first_colon_none(raw@);
        }
        t = String::new();
    }
    if t.as_str().unicode_len() == 0 {
        String::from_str("No such file or directory")
    } else {
        t
    }
}

/// A successful change of directory: the session state now records
/// `target`, and the confirmation message names it.
pub open spec fn cd_success_post(
    pre: ShellState,
    post: ShellState,
    target: Seq<char>,
    msg: Seq<char>,
) -> bool {
    post.cwd@ == target && msg == "Changed directory to: "@ + target
}

/// A failed change of directory: the session state is untouched, and
/// the diagnostic names the target and the cleaned system error.
pub open spec fn cd_failure_post(
    pre: ShellState,
    post: ShellState,
    target: Seq<char>,
    err: Seq<char>,
    msg: Seq<char>,
) -> bool {
    post == pre && msg == "cd: "@ + target + ": "@ + clean_error_spec(err)
}

/// Applies the outcome of the operating system's "set current
/// directory" call for `target` to the session state, and builds the
/// line to write to the command's output sink.
pub fn apply_cd_result(
    state: &mut ShellState,
    target: &str,
    chdir_error: Option<&str>,
) -> (msg: String)
    ensures
        chdir_error is None ==> cd_success_post(*old(state), *final(state), target@, msg@),
        chdir_error matches Some(e) ==> cd_failure_post(
            *old(state),
            *final(state),
            target@,
            e@,
            msg@,
        ),
{
    match chdir_error {
        None => {
            state.cwd = String::from_str(target);
            let mut msg = String::from_str("Changed directory to: ");
            msg.append(target);
            msg
        },
        Some(e) => {
            let cleaned = clean_error_message(e);
            let mut msg = String::from_str("cd: ");
            msg.append(target);
            msg.append(": ");
            msg.append(cleaned.as_str());
            msg
        },
    }
}

/// Printing the working directory immediately after a successful
/// change of directory reports exactly the directory just set: the
/// cached state matches the last mutation.
pub proof fn lemma_pwd_reflects_last_cd(
    pre: ShellState,
    post: ShellState,
    target: Seq<char>,
    msg: Seq<char>,
)
    requires
        cd_success_post(pre, post, target, msg),
    ensures
        pwd_view(post) == target,
{
}

} // verus!
