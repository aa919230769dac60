//! The tokenizer: splits one raw command line into argument strings,
//! resolving single quotes, double quotes and backslash escapes.
//!
//! The meaning of a line is given by a character-at-a-time state
//! machine ([`tok_step`]) over a scanning state of three mode flags, an
//! accumulating token buffer and the tokens emitted so far; the
//! executable scanner is proved to compute exactly the fold of that
//! machine over the input.

use vstd::prelude::*;
use vstd::string::StrSliceExecFns;

use crate::is_space_char;
use crate::strutil::push_char;

verus! {

/// The scanning state of the tokenizer: which quoting mode is active,
/// whether a backslash escape is pending, the token being accumulated,
/// and the tokens already emitted.
pub struct TokState {
    pub in_single: bool,
    pub in_double: bool,
    pub escape: bool,
    pub cur: Seq<char>,
    pub out: Seq<Seq<char>>,
}

/// The state before any character has been read.
pub open spec fn tok_init() -> TokState {
    TokState {
        in_single: false,
        in_double: false,
        escape: false,
        cur: Seq::empty(),
        out: Seq::empty(),
    }
}

/// One step of the tokenizer on character `c`.
///
/// Outside any quote, in priority order: a pending escape makes `c`
/// literal; a backslash starts an escape; a quote character opens its
/// mode without being kept; whitespace closes the current token
/// (emitted only if non-empty); anything else is accumulated.  Inside
/// single quotes every character is literal until the closing quote.
/// Inside double quotes a backslash escapes only `$`, `"` and
/// backslash itself — before any other character the backslash is kept
/// as well — and an unescaped `"` closes the mode.
pub open spec fn tok_step(st: TokState, c: char) -> TokState {
    if !st.in_single && !st.in_double {
        if st.escape {
            TokState { escape: false, cur: st.cur.push(c), ..st }
        } else if c == '\\' {
            TokState { escape: true, ..st }
        } else if c == '\'' {
            TokState { in_single: true, ..st }
        } else if c == '"' {
            TokState { in_double: true, ..st }
        } else if is_space_char(c) {
            if st.cur.len() > 0 {
                TokState { cur: Seq::empty(), out: st.out.push(st.cur), ..st }
            } else {
                st
            }
        } else {
            TokState { cur: st.cur.push(c), ..st }
        }
    } else if st.in_single {
        if c == '\'' {
            TokState { in_single: false, ..st }
        } else {
            TokState { cur: st.cur.push(c), ..st }
        }
    } else {
        if st.escape {
            if c == '$' || c == '"' || c == '\\' {
                TokState { escape: false, cur: st.cur.push(c), ..st }
            } else {
                TokState { escape: false, cur: st.cur.push('\\').push(c), ..st }
            }
        } else if c == '\\' {
            TokState { escape: true, ..st }
        } else if c == '"' {
            TokState { in_double: false, ..st }
        } else {
            TokState { cur: st.cur.push(c), ..st }
        }
    }
}

/// The state after the first `n` characters of `s`.
pub open spec fn tok_run(s: Seq<char>, n: int) -> TokState
    decreases n,
{
    if n <= 0 {
        tok_init()
    } else {
        tok_step(tok_run(s, n - 1), s[n - 1])
    }
}

/// At end of input the accumulated token, if non-empty, becomes the
/// final token.  Unterminated quotes and a trailing backslash are
/// accepted silently: they contribute whatever was accumulated.
pub open spec fn tok_finish(st: TokState) -> Seq<Seq<char>> {
    if st.cur.len() > 0 {
        st.out.push(st.cur)
    } else {
        st.out
    }
}

/// The token sequence of a whole line.
pub open spec fn tokenize_spec(s: Seq<char>) -> Seq<Seq<char>> {
    tok_finish(tok_run(s, s.len() as int))
}

/// Splits a raw command line into argument strings, honoring quoting
/// and escaping.  Token order matches argument order in the line.
pub fn handle_quotes(args_str: &str) -> (r: Vec<String>)
    ensures
        r.deep_view() == tokenize_spec(args_str@),
{
    let n = args_str.unicode_len();
    let mut args: Vec<String> = Vec::new();
    let mut arg: String = String::new();
    let mut in_single: bool = false;
    let mut in_double: bool = false;
    let mut escape: bool = false;
    let mut i: usize = 0;
    while i < n
        invariant
            n == args_str@.len(),
            i <= n,
            ({
                let st = tok_run(args_str@, i as int);
                &&& in_single == st.in_single
                &&& in_double == st.in_double
                &&& escape == st.escape
                &&& arg@ == st.cur
                &&& args.deep_view() == st.out
            }),
        decreases n - i,
    {
        let ghost st = tok_run(args_str@, i as int);
        let c = args_str.get_char(i);
        if !in_single && !in_double {
            if escape {
                push_char(&mut arg, c);
                escape = false;
            } else if c == '\\' {
                escape = true;
            } else if c == '\'' {
                in_single = true;
            } else if c == '"' {
                in_double = true;
            } else if crate::is_space(c) {
                if arg.as_str().unicode_len() > 0 {
                    let ghost old_out = args.deep_view();
                    let ghost old_cur = arg@;
                    args.push(arg);
                    arg = String::new();
                    proof {
                        assert(args.deep_view() =~= old_out.push(old_cur));
                    }
                }
            } else {
                push_char(&mut arg, c);
            }
        } else if in_single {
            if c == '\'' {
                in_single = false;
            } else {
                push_char(&mut arg, c);
            }
        } else {
            if escape {
                escape = false;
                if c == '$' || c == '"' || c == '\\' {
                    push_char(&mut arg, c);
                } else {
                    push_char(&mut arg, '\\');
                    push_char(&mut arg, c);
                }
            } else if c == '\\' {
                escape = true;
            } else if c == '"' {
                in_double = false;
            } else {
                push_char(&mut arg, c);
            }
        }
        i += 1;
        proof {
            assert(tok_run(args_str@, i as int) == tok_step(st, args_str@[i - 1]));
        }
    }
    if arg.as_str().unicode_len() > 0 {
        let ghost old_out = args.deep_view();
        let ghost old_cur = arg@;
        args.push(arg);
        proof {
            assert(args.deep_view() =~= old_out.push(old_cur));
        }
    }
    args
}

/// Tokens rejoined with single spaces.
pub open spec fn join_spaces(ts: Seq<Seq<char>>) -> Seq<char>
    decreases ts.len(),
{
    if ts.len() == 0 {
        Seq::empty()
    } else if ts.len() == 1 {
        ts[0]
    } else {
        join_spaces(ts.take(ts.len() - 1)) + seq![' '] + ts[ts.len() - 1]
    }
}

proof fn lemma_join_push(ts: Seq<Seq<char>>, x: Seq<char>)
    ensures
        ts.len() == 0 ==> join_spaces(ts.push(x)) == x,
        ts.len() > 0 ==> join_spaces(ts.push(x)) == join_spaces(ts) + seq![' '] + x,
{
    assert(ts.push(x).take(ts.len() as int) =~= ts);
    assert(ts.push(x)[ts.len() as int] == x);
}

/// The state of the normalizing scan: the quoting modes, whether the
/// scan stands inside a word, and the content accumulated so far.
pub struct NormState {
    pub in_single: bool,
    pub in_double: bool,
    pub word: bool,
    pub acc: Seq<char>,
}

pub open spec fn norm_init() -> NormState {
    NormState { in_single: false, in_double: false, word: false, acc: Seq::empty() }
}

/// Content character `c` is appended to the accumulated text; when it
/// opens a new word after earlier content, a single space separator
/// goes in front of it.
pub open spec fn norm_emit(st: NormState, c: char) -> NormState {
    if !st.word && st.acc.len() > 0 {
        NormState { word: true, acc: st.acc + seq![' '] + seq![c], ..st }
    } else {
        NormState { word: true, acc: st.acc.push(c), ..st }
    }
}

/// One step of the normalizing scan: quote delimiters are dropped,
/// unquoted whitespace only ends the current word, and every other
/// character — quoted whitespace included — is content.
pub open spec fn norm_step(st: NormState, c: char) -> NormState {
    if !st.in_single && !st.in_double {
        if c == '\'' {
            NormState { in_single: true, ..st }
        } else if c == '"' {
            NormState { in_double: true, ..st }
        } else if is_space_char(c) {
            NormState { word: false, ..st }
        } else {
            norm_emit(st, c)
        }
    } else if st.in_single {
        if c == '\'' {
            NormState { in_single: false, ..st }
        } else {
            norm_emit(st, c)
        }
    } else {
        if c == '"' {
            NormState { in_double: false, ..st }
        } else {
            norm_emit(st, c)
        }
    }
}

pub open spec fn norm_run(s: Seq<char>, n: int) -> NormState
    decreases n,
{
    if n <= 0 {
        norm_init()
    } else {
        norm_step(norm_run(s, n - 1), s[n - 1])
    }
}

/// The whitespace-normalized, quote-stripped content of a line:
/// quote delimiters removed, each unquoted whitespace run reduced to
/// a single space separator (none leading or trailing), and quoted
/// characters, whitespace included, kept as they stand.
pub open spec fn normalized_content_spec(s: Seq<char>) -> Seq<char> {
    norm_run(s, s.len() as int).acc
}

/// The emitted tokens and the accumulating token, joined with single
/// spaces.
spec fn partial_join(out: Seq<Seq<char>>, cur: Seq<char>) -> Seq<char> {
    if cur.len() == 0 {
        join_spaces(out)
    } else if out.len() == 0 {
        cur
    } else {
        join_spaces(out) + seq![' '] + cur
    }
}

proof fn lemma_join_nonempty(ts: Seq<Seq<char>>)
    requires
        ts.len() > 0,
        forall|i: int| 0 <= i < ts.len() ==> ts[i].len() > 0,
    ensures
        join_spaces(ts).len() > 0,
{
    if ts.len() == 1 {
        assert(ts[0].len() > 0);
    }
}

proof fn lemma_tok_norm_agree(s: Seq<char>, n: int)
    requires
        0 <= n <= s.len(),
        forall|k: int| 0 <= k < s.len() ==> s[k] != '\\',
    ensures
        ({
            let tq = tok_run(s, n);
            let nq = norm_run(s, n);
            &&& nq.in_single == tq.in_single
            &&& nq.in_double == tq.in_double
            &&& !tq.escape
            &&& (nq.word <==> tq.cur.len() > 0)
            &&& nq.acc == partial_join(tq.out, tq.cur)
            &&& forall|i: int| 0 <= i < tq.out.len() ==> tq.out[i].len() > 0
        }),
    decreases n,
{
    if n > 0 {
        lemma_tok_norm_agree(s, n - 1);
        let tq = tok_run(s, n - 1);
        let nq = norm_run(s, n - 1);
        let c = s[n - 1];
        assert(c != '\\');
        if !tq.in_single && !tq.in_double && c != '\'' && c != '"' && is_space_char(c) {
            if tq.cur.len() > 0 {
                lemma_join_push(tq.out, tq.cur);
            }
        } else if (!tq.in_single && !tq.in_double && c != '\'' && c != '"' && !is_space_char(c))
            || (tq.in_single && c != '\'') || (tq.in_double && c != '"') {
            // a content character reaches norm_emit and the token buffer
            if nq.word {
                assert(tq.cur.len() > 0);
                assert(nq.acc.push(c) =~= partial_join(tq.out, tq.cur.push(c)));
            } else {
                assert(tq.cur.len() == 0);
                if nq.acc.len() > 0 {
                    assert(tq.out.len() > 0);
                    assert(nq.acc + seq![' '] + seq![c] =~= partial_join(tq.out, seq![c]));
                } else {
                    if tq.out.len() > 0 {
                        lemma_join_nonempty(tq.out);
                    }
                    assert(tq.out.len() == 0);
                    assert(nq.acc.push(c) =~= partial_join(tq.out, seq![c]));
                }
            }
        }
    }
}

/// Tokenizing a line with balanced, non-nested quotes and no escape
/// characters, then rejoining the tokens with single spaces,
/// reproduces the whitespace-normalized, quote-stripped content of
/// the line.
pub proof fn lemma_tokenize_round_trip(s: Seq<char>)
    requires
        forall|k: int| 0 <= k < s.len() ==> s[k] != '\\',
        !tok_run(s, s.len() as int).in_single,
        !tok_run(s, s.len() as int).in_double,
    ensures
        join_spaces(tokenize_spec(s)) == normalized_content_spec(s),
{
    lemma_tok_norm_agree(s, s.len() as int);
    let tq = tok_run(s, s.len() as int);
    if tq.cur.len() > 0 {
        lemma_join_push(tq.out, tq.cur);
    }
}

} // verus!
