//! The path resolver: searches the directories named in a
//! colon-separated search-path value for an entry whose name equals
//! the requested command, first match in path order winning.
//!
//! Listing a directory is the filesystem's business; the resolver
//! works on plain values, a directory path together with the entry
//! names it was seen to contain.  Directories that could not be
//! listed simply do not appear in the input.

use vstd::prelude::*;
use vstd::string::StrSliceExecFns;
use vstd::string::StringExecFns;

use crate::strutil::str_eq;

verus! {

/// The pieces accumulated by splitting the first `n` characters of
/// `s` on colons: the finished pieces and the piece in progress.
pub open spec fn split_run(s: Seq<char>, n: int) -> (Seq<Seq<char>>, Seq<char>)
    decreases n,
{
    if n <= 0 {
        (Seq::empty(), Seq::empty())
    } else {
        let prev = split_run(s, n - 1);
        if s[n - 1] == ':' {
            (prev.0.push(prev.1), Seq::empty())
        } else {
            (prev.0, prev.1.push(s[n - 1]))
        }
    }
}

/// `s` split on colons.  Every piece is kept, empty ones included,
/// and a trailing piece always exists, so an empty `s` yields one
/// empty piece.
pub open spec fn split_colon_spec(s: Seq<char>) -> Seq<Seq<char>> {
    let r = split_run(s, s.len() as int);
    r.0.push(r.1)
}

/// Splits a search-path value into its directory entries, in
/// left-to-right order.
pub fn split_search_path(paths: &str) -> (r: Vec<String>)
    ensures
        r.deep_view() == split_colon_spec(paths@),
{
    let n = paths.unicode_len();
    let mut out: Vec<String> = Vec::new();
    let mut cur: String = String::new();
    let mut i: usize = 0;
    proof {
        assert(out.deep_view() =~= Seq::<Seq<char>>::empty());
    }
    while i < n
        invariant
            n == paths@.len(),
            i <= n,
            ({
                let st = split_run(paths@, i as int);
                out.deep_view() == st.0 && cur@ == st.1
            }),
        decreases n - i,
    {
        let ghost st = split_run(paths@, i as int);
        let c = paths.get_char(i);
        if c == ':' {
            let ghost old_out = out.deep_view();
            let ghost old_cur = cur@;
            out.push(cur);
            cur = String::new();
            proof {
                assert(out.deep_view() =~= old_out.push(old_cur));
            }
        } else {
            crate::strutil::push_char(&mut cur, c);
        }
        i += 1;
        proof {
            assert(split_run(paths@, i as int) == ({
                let prev = split_run(paths@, i - 1);
                if paths@[i - 1] == ':' {
                    (prev.0.push(prev.1), Seq::<char>::empty())
                } else {
                    (prev.0, prev.1.push(paths@[i - 1]))
                }
            }));
        }
    }
    let ghost old_out = out.deep_view();
    let ghost old_cur = cur@;
    out.push(cur);
    proof {
        assert(out.deep_view() =~= old_out.push(old_cur));
    }
    out
}

/// A search-path directory together with the entry names it was seen
/// to contain.
pub struct SearchDir {
    pub dir: String,
    pub entries: Vec<String>,
}

/// Whether the listed directory contains an entry named `name`.
pub open spec fn search_dir_has(d: SearchDir, name: Seq<char>) -> bool {
    d.entries.deep_view().contains(name)
}

/// The full path of entry `name` inside `dir`: the two joined by a
/// path separator, which is not doubled when `dir` already ends with
/// one; an empty `dir` contributes nothing.
pub open spec fn joined_path_spec(dir: Seq<char>, name: Seq<char>) -> Seq<char> {
    if dir.len() == 0 {
        name
    } else if dir[dir.len() - 1] == '/' {
        dir + name
    } else {
        dir + "/"@ + name
    }
}

/// Joins a directory path and an entry name into a full path.
pub fn join_path(dir: &str, name: &str) -> (r: String)
    ensures
        r@ == joined_path_spec(dir@, name@),
{
    let dlen = dir.unicode_len();
    if dlen == 0 {
        return String::from_str(name);
    }
    let mut s = String::from_str(dir);
    if dir.get_char(dlen - 1) != '/' {
        s.append("/");
    }
    s.append(name);
    s
}

/// Whether `entries` holds a name equal to `name`.
fn entries_contain(entries: &Vec<String>, name: &str) -> (r: bool)
    ensures
        r == entries.deep_view().contains(name@),
{
    let n = entries.len();
    let mut j: usize = 0;
    while j < n
        invariant
            n == entries.len(),
            j <= n,
            forall|k: int| 0 <= k < j ==> entries.deep_view()[k] != name@,
        decreases n - j,
    {
        if str_eq(entries[j].as_str(), name) {
            proof {
                assert(entries.deep_view()[j as int] == name@);
            }
            return true;
        }
        j += 1;
    }
    proof {
        assert(forall|k: int|
            0 <= k < entries.deep_view().len() ==> entries.deep_view()[k] != name@);
    }
    false
}

/// Searches the listed directories, in order, for an entry named
/// `cmd` and returns the full path of the first match.  No attempt is
/// made to verify that the entry is executable or even a regular
/// file.
pub fn check_cmd_in_path(cmd: &str, dirs: &Vec<SearchDir>) -> (r: Option<String>)
    ensures
        r is None <==> (forall|i: int| 0 <= i < dirs@.len() ==> !search_dir_has(dirs@[i], cmd@)),
        r matches Some(p) ==> exists|i: int|
            0 <= i < dirs@.len() && search_dir_has(dirs@[i], cmd@) && (forall|j: int|
                0 <= j < i ==> !search_dir_has(dirs@[j], cmd@)) && p@ == joined_path_spec(
                dirs@[i].dir@,
                cmd@,
            ),
{
    let n = dirs.len();
    let mut i: usize = 0;
    while i < n
        invariant
            n == dirs.len(),
            i <= n,
            forall|j: int| 0 <= j < i ==> !search_dir_has(dirs@[j], cmd@),
        decreases n - i,
    {
        let d = &dirs[i];
        if entries_contain(&d.entries, cmd) {
            let p = join_path(d.dir.as_str(), cmd);
            proof {
                assert(search_dir_has(dirs@[i as int], cmd@));
            }
            return Some(p);
        }
        i += 1;
    }
    None
}

} // verus!
