//! File-system path operations on path strings (Unix paths).
//!
//! `join`, `is_absolute`, `file_stem`, `extension` and `with_file_name` are
//! stated here in full; `Path::parent`, `Path::file_name` and
//! `PathBuf::set_extension` depend on std's component parsing and are
//! called through the wrappers at the end of this file.

use vstd::prelude::*;

use crate::text::{after_last, chars, chars_of, push_chars, push_str, slice, string_of};

verus! {

/// The parent directory of `p`, as `Path::parent` reports it.
pub uninterp spec fn spec_parent(p: Seq<char>) -> Option<Seq<char>>;

/// The last component of `p`, as `Path::file_name` reports it.
pub uninterp spec fn spec_file_name(p: Seq<char>) -> Option<Seq<char>>;

/// `p` after `PathBuf::set_extension(ext)`.
pub uninterp spec fn spec_set_extension(p: Seq<char>, ext: Seq<char>) -> Seq<char>;

pub open spec fn opt_string_view(o: Option<String>) -> Option<Seq<char>> {
    match o {
        Some(s) => Some(s@),
        None => None,
    }
}

/// Unix: a path is absolute when it starts at the root.
pub open spec fn is_absolute(p: Seq<char>) -> bool {
    p.len() > 0 && p[0] == '/'
}

/// `base.join(p)`: an absolute `p` replaces `base`; otherwise a separator is
/// inserted when `base` is non-empty and does not already end in one.
pub open spec fn join(base: Seq<char>, p: Seq<char>) -> Seq<char> {
    if is_absolute(p) {
        p
    } else if base.len() > 0 && base.last() != '/' {
        base + seq!['/'] + p
    } else {
        base + p
    }
}

/// Split of a file name at its last dot, as std does for stems and
/// extensions: no dot, or only a leading dot, means no extension.
pub open spec fn stem_of_name(name: Seq<char>) -> Seq<char> {
    let i = after_last(name, '.', name.len() as int);
    if name == ".."@ || i <= 1 {
        name
    } else {
        name.take(i - 1)
    }
}

pub open spec fn ext_of_name(name: Seq<char>) -> Option<Seq<char>> {
    let i = after_last(name, '.', name.len() as int);
    if name == ".."@ || i <= 1 {
        None
    } else {
        Some(name.skip(i))
    }
}

/// `Path::file_stem`.
pub open spec fn file_stem(p: Seq<char>) -> Option<Seq<char>> {
    match spec_file_name(p) {
        Some(n) => Some(stem_of_name(n)),
        None => None,
    }
}

/// `Path::extension`.
pub open spec fn extension(p: Seq<char>) -> Option<Seq<char>> {
    match spec_file_name(p) {
        Some(n) => ext_of_name(n),
        None => None,
    }
}

/// `Path::with_file_name`: drop the last component (when there is a file
/// name and a parent), then join `name`.
pub open spec fn with_file_name(p: Seq<char>, name: Seq<char>) -> Seq<char> {
    match spec_file_name(p) {
        Some(_) => match spec_parent(p) {
            Some(q) => join(q, name),
            None => join(p, name),
        },
        None => join(p, name),
    }
}

pub fn is_absolute_path(p: &str) -> (r: bool)
    ensures
        r == is_absolute(p@),
{
    let v = chars_of(p);
    v.len() > 0 && v[0] == '/'
}

/// `Path::new(base).join(p)`.
pub fn join_path(base: &str, p: &str) -> (r: String)
    ensures
        r@ == join(base@, p@),
{
    let b = chars_of(base);
    let q = chars_of(p);
    if q.len() > 0 && q[0] == '/' {
        return string_of(&q);
    }
    let mut r = string_of(&b);
    if b.len() > 0 && b[b.len() - 1] != '/' {
        r.push('/');
    }
    push_chars(&mut r, &q);
    proof {
        if b@.len() > 0 && b@.last() != '/' {
            assert(r@ =~= base@ + seq!['/'] + p@);
        } else {
            assert(r@ =~= base@ + p@);
        }
    }
    r
}

fn split_name(name: &Vec<char>) -> (r: (Vec<char>, Option<Vec<char>>))
    ensures
        r.0@ == stem_of_name(name@),
        opt_chars_view(r.1) == ext_of_name(name@),
{
    let mut i = name.len();
    while i > 0 && name[i - 1] != '.'
        invariant
            i <= name.len(),
            after_last(name@, '.', name.len() as int) == after_last(name@, '.', i as int),
        decreases i,
    {
        i -= 1;
    }
    let dots = chars_of("..");
    let is_dotdot = crate::text::eq_chars(name, &dots);
    if is_dotdot || i <= 1 {
        assert(name@.subrange(0, name.len() as int) =~= name@);
        (slice(name, 0, name.len()), None)
    } else {
        assert(name@.subrange(i as int, name.len() as int) =~= name@.skip(i as int));
        (slice(name, 0, i - 1), Some(slice(name, i, name.len())))
    }
}

pub open spec fn opt_chars_view(o: Option<Vec<char>>) -> Option<Seq<char>> {
    match o {
        Some(v) => Some(v@),
        None => None,
    }
}

/// `Path::file_stem`.
pub fn path_file_stem(p: &str) -> (r: Option<String>)
    ensures
        opt_string_view(r) == file_stem(p@),
{
    match path_file_name(p) {
        Some(n) => {
            let v = chars(&n);
            let (stem, _) = split_name(&v);
            Some(string_of(&stem))
        },
        None => None,
    }
}

/// `Path::extension`.
pub fn path_extension(p: &str) -> (r: Option<String>)
    ensures
        opt_string_view(r) == extension(p@),
{
    match path_file_name(p) {
        Some(n) => {
            let v = chars(&n);
            let (_, ext) = split_name(&v);
            match ext {
                Some(e) => Some(string_of(&e)),
                None => None,
            }
        },
        None => None,
    }
}

/// `Path::with_file_name`.
pub fn path_with_file_name(p: &str, name: &str) -> (r: String)
    ensures
        r@ == with_file_name(p@, name@),
{
    match path_file_name(p) {
        Some(_) => match path_parent(p) {
            Some(q) => join_path(q.as_str(), name),
            None => join_path(p, name),
        },
        None => join_path(p, name),
    }
}

/// `p` followed by `suffix`, as one string.
pub fn with_suffix(p: &str, suffix: &str) -> (r: String)
    ensures
        r@ == p@ + suffix@,
{
    let mut r = string_of(&chars_of(p));
    push_str(&mut r, suffix);
    r
}

// ───────────────────────── std wrappers ─────────────────────────

/// Calls `Path::parent`; the contract claims only that the result is the
/// function of the path string named `spec_parent`.
#[verifier::external_body]
pub(crate) fn path_parent(p: &str) -> (r: Option<String>)
    ensures
        opt_string_view(r) == spec_parent(p@),
{
    match std::path::Path::new(p).parent() {
        Some(q) => Some(q.to_string_lossy().into_owned()),
        None => None,
    }
}

/// Calls `Path::file_name`; the contract claims only that the result is
/// the function of the path string named `spec_file_name`.
#[verifier::external_body]
pub(crate) fn path_file_name(p: &str) -> (r: Option<String>)
    ensures
        opt_string_view(r) == spec_file_name(p@),
{
    match std::path::Path::new(p).file_name() {
        Some(n) => Some(n.to_string_lossy().into_owned()),
        None => None,
    }
}

/// Calls `PathBuf::set_extension` on a copy of `p`; the contract claims only
/// that the result is the function of its arguments named
/// `spec_set_extension`. std panics when the extension holds a path
/// separator, so such an extension is not admitted.
#[verifier::external_body]
pub(crate) fn path_set_extension(p: &str, ext: &str) -> (r: String)
    requires
        !ext@.contains('/'),
    ensures
        r@ == spec_set_extension(p@, ext@),
{
    let mut buf = std::path::PathBuf::from(p);
    buf.set_extension(ext);
    buf.to_string_lossy().into_owned()
}

} // verus!
