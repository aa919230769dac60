//! The redirection parser: consumes a token sequence and splits it
//! into the residual command arguments, an optional output target, an
//! optional error target, and the append flags.
//!
//! Recognition is exact-string match on six operators: `>` and `1>`
//! (output, truncate), `2>` (error, truncate), `>>` and `1>>` (output,
//! append), `2>>` (error, append).  An operator counts only when a
//! following token exists to serve as its filename; a trailing
//! operator is kept as an ordinary argument.  When operators of one
//! kind repeat, the last captured target wins.

use vstd::prelude::*;

use crate::strutil::str_eq;

verus! {

/// The parser state: residual arguments, captured targets and flags.
pub struct RedirState {
    pub args: Seq<Seq<char>>,
    pub out: Option<Seq<char>>,
    pub err: Option<Seq<char>>,
    pub append_out: bool,
    pub append_err: bool,
}

/// The state before any token has been read.
pub open spec fn redir_init() -> RedirState {
    RedirState {
        args: Seq::empty(),
        out: None,
        err: None,
        append_out: false,
        append_err: false,
    }
}

pub open spec fn is_out_trunc_op(t: Seq<char>) -> bool {
    t == ">"@ || t == "1>"@
}

pub open spec fn is_out_append_op(t: Seq<char>) -> bool {
    t == ">>"@ || t == "1>>"@
}

pub open spec fn is_err_trunc_op(t: Seq<char>) -> bool {
    t == "2>"@
}

pub open spec fn is_err_append_op(t: Seq<char>) -> bool {
    t == "2>>"@
}

/// The parse of `tokens` from position `i` onward, starting in state
/// `st`.  An operator with a following token captures that token and
/// skips both; anything else is appended to the residual arguments.
/// A truncating operator does not clear an append flag set earlier.
pub open spec fn redir_from(tokens: Seq<Seq<char>>, i: int, st: RedirState) -> RedirState
    decreases tokens.len() - i,
{
    if i < 0 || i >= tokens.len() {
        st
    } else if is_out_trunc_op(tokens[i]) && i + 1 < tokens.len() {
        redir_from(tokens, i + 2, RedirState { out: Some(tokens[i + 1]), ..st })
    } else if is_err_trunc_op(tokens[i]) && i + 1 < tokens.len() {
        redir_from(tokens, i + 2, RedirState { err: Some(tokens[i + 1]), ..st })
    } else if is_out_append_op(tokens[i]) && i + 1 < tokens.len() {
        redir_from(
            tokens,
            i + 2,
            RedirState { out: Some(tokens[i + 1]), append_out: true, ..st },
        )
    } else if is_err_append_op(tokens[i]) && i + 1 < tokens.len() {
        redir_from(
            tokens,
            i + 2,
            RedirState { err: Some(tokens[i + 1]), append_err: true, ..st },
        )
    } else {
        redir_from(tokens, i + 1, RedirState { args: st.args.push(tokens[i]), ..st })
    }
}

/// The parse of a whole token sequence.
pub open spec fn parse_redirection_spec(tokens: Seq<Seq<char>>) -> RedirState {
    redir_from(tokens, 0, redir_init())
}

/// Splits a token sequence into the residual command arguments, the
/// output target, the error target, and the output/error append
/// flags, in that order.
pub fn parse_redirection(args: &Vec<String>) -> (r: (
    Vec<String>,
    Option<String>,
    Option<String>,
    bool,
    bool,
))
    ensures
        ({
            let st = parse_redirection_spec(args.deep_view());
            &&& r.0.deep_view() == st.args
            &&& r.1.deep_view() == st.out
            &&& r.2.deep_view() == st.err
            &&& r.3 == st.append_out
            &&& r.4 == st.append_err
        }),
{
    let mut cmd_args: Vec<String> = Vec::new();
    let mut output_file: Option<String> = None;
    let mut error_file: Option<String> = None;
    let mut append_output: bool = false;
    let mut append_error: bool = false;
    let n = args.len();
    let mut i: usize = 0;
    proof {
        assert(cmd_args.deep_view() =~= redir_init().args);
    }
    while i < n
        invariant
            n == args.len(),
            i <= n,
            ({
                let st = RedirState {
                    args: cmd_args.deep_view(),
                    out: output_file.deep_view(),
                    err: error_file.deep_view(),
                    append_out: append_output,
                    append_err: append_error,
                };
                redir_from(args.deep_view(), i as int, st) == parse_redirection_spec(
                    args.deep_view(),
                )
            }),
        decreases n - i,
    {
        let ghost toks = args.deep_view();
        proof {
            assert(toks[i as int] == args@[i as int]@);
        }
        let tok = &args[i];
        if (str_eq(tok.as_str(), ">") || str_eq(tok.as_str(), "1>")) && i + 1 < n {
            output_file = Some(args[i + 1].clone());
            i += 2;
        } else if str_eq(tok.as_str(), "2>") && i + 1 < n {
            error_file = Some(args[i + 1].clone());
            i += 2;
        } else if (str_eq(tok.as_str(), ">>") || str_eq(tok.as_str(), "1>>")) && i + 1 < n {
            output_file = Some(args[i + 1].clone());
            append_output = true;
            i += 2;
        } else if str_eq(tok.as_str(), "2>>") && i + 1 < n {
            error_file = Some(args[i + 1].clone());
            append_error = true;
            i += 2;
        } else {
            let ghost old_args = cmd_args.deep_view();
            cmd_args.push(args[i].clone());
            proof {
                assert(cmd_args.deep_view() =~= old_args.push(toks[i as int]));
            }
            i += 1;
        }
    }
    (cmd_args, output_file, error_file, append_output, append_error)
}

} // verus!
