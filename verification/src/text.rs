//! Character-sequence helpers shared by the script parser, the output
//! builders and the tool-output scanners.
//!
//! Text is handled as `Vec<char>` in executable code and as `Seq<char>` in
//! specifications; the spec functions here say what `str::trim`,
//! `str::lines`, `str::split_whitespace`, `str::parse` and integer
//! formatting produce.

use vstd::prelude::*;

verus! {

/// `String::push` appends one character.
pub assume_specification[ String::push ](s: &mut String, ch: char)
    ensures
        final(s)@ == old(s)@.push(ch),
;

// ───────────────────────── characters ─────────────────────────

/// Unicode `White_Space` (what `char::is_whitespace` tests).
pub open spec fn is_ws(c: char) -> bool {
    ||| ('\u{9}' <= c && c <= '\u{d}')
    ||| c == ' '
    ||| c == '\u{85}'
    ||| c == '\u{a0}'
    ||| c == '\u{1680}'
    ||| ('\u{2000}' <= c && c <= '\u{200a}')
    ||| c == '\u{2028}'
    ||| c == '\u{2029}'
    ||| c == '\u{202f}'
    ||| c == '\u{205f}'
    ||| c == '\u{3000}'
}

pub fn is_whitespace(c: char) -> (r: bool)
    ensures
        r == is_ws(c),
{
    ('\u{9}' <= c && c <= '\u{d}') || c == ' ' || c == '\u{85}' || c == '\u{a0}' || c
        == '\u{1680}' || ('\u{2000}' <= c && c <= '\u{200a}') || c == '\u{2028}' || c
        == '\u{2029}' || c == '\u{202f}' || c == '\u{205f}' || c == '\u{3000}'
}

pub open spec fn is_digit(c: char) -> bool {
    '0' <= c && c <= '9'
}

pub open spec fn digit_val(c: char) -> nat {
    ((c as int) - ('0' as int)) as nat
}

pub open spec fn digit_char(d: nat) -> char {
    if d == 0 {
        '0'
    } else if d == 1 {
        '1'
    } else if d == 2 {
        '2'
    } else if d == 3 {
        '3'
    } else if d == 4 {
        '4'
    } else if d == 5 {
        '5'
    } else if d == 6 {
        '6'
    } else if d == 7 {
        '7'
    } else if d == 8 {
        '8'
    } else {
        '9'
    }
}

/// ASCII lowercase of one character (what `char::to_ascii_lowercase` does).
pub open spec fn ascii_lower(c: char) -> char {
    if 'A' <= c && c <= 'Z' {
        ((c as int) + 32) as char
    } else {
        c
    }
}

pub open spec fn ascii_lower_seq(s: Seq<char>) -> Seq<char> {
    s.map_values(|c: char| ascii_lower(c))
}

pub fn to_ascii_lower_char(c: char) -> (r: char)
    ensures
        r == ascii_lower(c),
{
    if 'A' <= c && c <= 'Z' {
        let u = (c as u32) + 32;
        assert(u == (c as int) + 32);
        char_from_ascii(u)
    } else {
        c
    }
}

/// The character with code `u` for an ASCII code.
fn char_from_ascii(u: u32) -> (r: char)
    requires
        u < 128,
    ensures
        r == u as char,
{
    let b = u as u8;
    b as char
}

pub fn to_ascii_lower(s: &Vec<char>) -> (r: Vec<char>)
    ensures
        r@ == ascii_lower_seq(s@),
{
    let mut r: Vec<char> = Vec::new();
    let mut i: usize = 0;
    while i < s.len()
        invariant
            i <= s.len(),
            r@ == ascii_lower_seq(s@.take(i as int)),
        decreases s.len() - i,
    {
        let c = to_ascii_lower_char(s[i]);
        r.push(c);
        i += 1;
        assert(ascii_lower_seq(s@.take(i as int)) =~= ascii_lower_seq(s@.take(i - 1)).push(
            ascii_lower(s@[i - 1]),
        ));
    }
    assert(s@.take(s.len() as int) =~= s@);
    r
}

// ───────────────────────── strings ⇄ vectors ─────────────────────────

/// The characters of `s`, in order.
pub fn chars_of(s: &str) -> (res: Vec<char>)
    ensures
        res@ == s@,
{
    let mut res: Vec<char> = Vec::new();
    for c in it: s.chars()
        invariant
            res@ == it.seq().take(it.index() as int),
            it.seq() == s@,
    {
        res.push(c);
    }
    res
}

/// The characters of an owned string.
pub fn chars(s: &String) -> (res: Vec<char>)
    ensures
        res@ == s@,
{
    chars_of(s.as_str())
}

/// Appends every character of `v` to `s`.
pub fn push_chars(s: &mut String, v: &Vec<char>)
    ensures
        final(s)@ == old(s)@ + v@,
{
    let mut i: usize = 0;
    while i < v.len()
        invariant
            i <= v.len(),
            s@ == old(s)@ + v@.take(i as int),
        decreases v.len() - i,
    {
        s.push(v[i]);
        i += 1;
        assert(old(s)@ + v@.take(i as int) =~= (old(s)@ + v@.take(i - 1)).push(v@[i - 1]));
    }
    assert(v@.take(v.len() as int) =~= v@);
}

/// Appends a string slice to `s`.
pub fn push_str(s: &mut String, t: &str)
    ensures
        final(s)@ == old(s)@ + t@,
{
    let v = chars_of(t);
    push_chars(s, &v);
}

/// A new string holding the characters of `v`.
pub fn string_of(v: &Vec<char>) -> (s: String)
    ensures
        s@ == v@,
{
    let mut s = String::new();
    push_chars(&mut s, v);
    assert(s@ =~= v@);
    s
}

/// A string holding the characters of a literal.
pub fn lit(s: &str) -> (r: String)
    ensures
        r@ == s@,
{
    let v = chars_of(s);
    string_of(&v)
}

/// A copy of a string.
pub fn copy_string(s: &String) -> (r: String)
    ensures
        r@ == s@,
{
    let v = chars(s);
    string_of(&v)
}

/// `v == lit` compared character by character.
pub fn eq_lit(v: &Vec<char>, lit: &str) -> (r: bool)
    ensures
        r == (v@ == lit@),
{
    let l = chars_of(lit);
    eq_chars(v, &l)
}

/// Two character sequences are equal.
pub fn eq_chars(a: &Vec<char>, b: &Vec<char>) -> (r: bool)
    ensures
        r == (a@ == b@),
{
    if a.len() != b.len() {
        return false;
    }
    let mut i: usize = 0;
    while i < a.len()
        invariant
            i <= a.len(),
            a.len() == b.len(),
            forall|k: int| 0 <= k < i ==> a@[k] == b@[k],
        decreases a.len() - i,
    {
        if a[i] != b[i] {
            return false;
        }
        i += 1;
    }
    assert(a@ =~= b@);
    true
}

/// `s[lo..hi]`.
pub fn slice(s: &Vec<char>, lo: usize, hi: usize) -> (r: Vec<char>)
    requires
        lo <= hi <= s.len(),
    ensures
        r@ == s@.subrange(lo as int, hi as int),
{
    let mut r: Vec<char> = Vec::new();
    let mut i = lo;
    while i < hi
        invariant
            lo <= i <= hi <= s.len(),
            r@ == s@.subrange(lo as int, i as int),
        decreases hi - i,
    {
        r.push(s[i]);
        i += 1;
        assert(r@ =~= s@.subrange(lo as int, i as int));
    }
    r
}

// ───────────────────────── prefix / suffix / search ─────────────────────────

pub open spec fn starts_with(s: Seq<char>, p: Seq<char>) -> bool {
    p.len() <= s.len() && s.take(p.len() as int) == p
}

pub open spec fn ends_with(s: Seq<char>, p: Seq<char>) -> bool {
    p.len() <= s.len() && s.skip(s.len() - p.len()) == p
}

/// `needle` occurs in `hay` starting at `i`.
pub open spec fn occurs_at(hay: Seq<char>, needle: Seq<char>, i: int) -> bool {
    0 <= i && i + needle.len() <= hay.len() && hay.subrange(i, i + needle.len()) == needle
}

pub open spec fn contains_seq(hay: Seq<char>, needle: Seq<char>) -> bool {
    exists|i: int| occurs_at(hay, needle, i)
}

pub fn starts_with_chars(s: &Vec<char>, p: &Vec<char>) -> (r: bool)
    ensures
        r == starts_with(s@, p@),
{
    if p.len() > s.len() {
        return false;
    }
    let head = slice(s, 0, p.len());
    eq_chars(&head, p)
}

pub fn starts_with_lit(s: &Vec<char>, lit: &str) -> (r: bool)
    ensures
        r == starts_with(s@, lit@),
{
    let p = chars_of(lit);
    starts_with_chars(s, &p)
}

pub fn ends_with_chars(s: &Vec<char>, p: &Vec<char>) -> (r: bool)
    ensures
        r == ends_with(s@, p@),
{
    if p.len() > s.len() {
        return false;
    }
    let tail = slice(s, s.len() - p.len(), s.len());
    assert(tail@ =~= s@.skip(s@.len() - p@.len()));
    eq_chars(&tail, p)
}

pub fn ends_with_lit(s: &Vec<char>, lit: &str) -> (r: bool)
    ensures
        r == ends_with(s@, lit@),
{
    let p = chars_of(lit);
    ends_with_chars(s, &p)
}

/// Whether `needle` occurs at position `i` of `hay`.
fn occurs_at_exec(hay: &Vec<char>, needle: &Vec<char>, i: usize) -> (r: bool)
    ensures
        r == occurs_at(hay@, needle@, i as int),
{
    if needle.len() > hay.len() || i > hay.len() - needle.len() {
        return false;
    }
    let part = slice(hay, i, i + needle.len());
    eq_chars(&part, needle)
}

pub fn contains_chars(hay: &Vec<char>, needle: &Vec<char>) -> (r: bool)
    ensures
        r == contains_seq(hay@, needle@),
{
    if needle.len() == 0 {
        assert(hay@.subrange(0, 0) =~= needle@);
        assert(occurs_at(hay@, needle@, 0));
        return true;
    }
    if needle.len() > hay.len() {
        assert forall|i: int| !occurs_at(hay@, needle@, i) by {}
        return false;
    }
    let mut i: usize = 0;
    while i < hay.len()
        invariant
            i <= hay.len(),
            needle.len() > 0,
            forall|k: int| 0 <= k < i ==> !occurs_at(hay@, needle@, k),
        decreases hay.len() - i,
    {
        if occurs_at_exec(hay, needle, i) {
            return true;
        }
        i += 1;
    }
    assert forall|k: int| !occurs_at(hay@, needle@, k) by {
        if 0 <= k < i {
        }
    }
    false
}

pub fn contains_lit(hay: &Vec<char>, lit: &str) -> (r: bool)
    ensures
        r == contains_seq(hay@, lit@),
{
    let n = chars_of(lit);
    contains_chars(hay, &n)
}

/// First index `k >= i` with `s[k] == c`, or `s.len()` when there is none.
pub open spec fn find_from(s: Seq<char>, c: char, i: int) -> int
    decreases s.len() - i,
{
    if i < 0 || i >= s.len() {
        s.len() as int
    } else if s[i] == c {
        i
    } else {
        find_from(s, c, i + 1)
    }
}

/// The scan stops exactly at the first match at or after `i`.
pub proof fn lemma_find_from(s: Seq<char>, c: char, i: int, j: int)
    requires
        0 <= i <= j <= s.len(),
        forall|k: int| i <= k < j ==> s[k] != c,
        j == s.len() || s[j] == c,
    ensures
        find_from(s, c, i) == j,
    decreases j - i,
{
    if i < j {
        lemma_find_from(s, c, i + 1, j);
    }
}

pub proof fn lemma_find_from_bounds(s: Seq<char>, c: char, i: int)
    requires
        0 <= i <= s.len(),
    ensures
        i <= find_from(s, c, i) <= s.len(),
        find_from(s, c, i) < s.len() ==> s[find_from(s, c, i)] == c,
        forall|k: int| i <= k < find_from(s, c, i) ==> s[k] != c,
    decreases s.len() - i,
{
    if i < s.len() && s[i] != c {
        lemma_find_from_bounds(s, c, i + 1);
    }
}

/// Index of the first `c` in `s` at or after `from`, or `s.len()`.
pub fn find_char(s: &Vec<char>, c: char, from: usize) -> (r: usize)
    requires
        from <= s.len(),
    ensures
        r == find_from(s@, c, from as int),
        from <= r <= s.len(),
{
    let mut i = from;
    while i < s.len() && s[i] != c
        invariant
            from <= i <= s.len(),
            forall|k: int| from <= k < i ==> s@[k] != c,
        decreases s.len() - i,
    {
        i += 1;
    }
    proof {
        lemma_find_from(s@, c, from as int, i as int);
    }
    i
}

/// Split at the first `c`: the parts before and after it.
pub open spec fn split_once(s: Seq<char>, c: char) -> Option<(Seq<char>, Seq<char>)> {
    let j = find_from(s, c, 0);
    if j < s.len() {
        Some((s.take(j), s.skip(j + 1)))
    } else {
        None
    }
}

pub fn split_once_char(s: &Vec<char>, c: char) -> (r: Option<(Vec<char>, Vec<char>)>)
    ensures
        match r {
            Some((a, b)) => split_once(s@, c) == Some((a@, b@)),
            None => split_once(s@, c) is None,
        },
{
    let j = find_char(s, c, 0);
    if j < s.len() {
        let a = slice(s, 0, j);
        let b = slice(s, j + 1, s.len());
        assert(a@ =~= s@.take(j as int));
        assert(b@ =~= s@.skip(j + 1));
        Some((a, b))
    } else {
        None
    }
}

/// Index just after the last `c` before position `j` (0 when there is none).
pub open spec fn after_last(s: Seq<char>, c: char, j: int) -> int
    decreases j,
{
    if j <= 0 {
        0
    } else if s[j - 1] == c {
        j
    } else {
        after_last(s, c, j - 1)
    }
}

pub proof fn lemma_after_last_bounds(s: Seq<char>, c: char, j: int)
    requires
        0 <= j <= s.len(),
    ensures
        0 <= after_last(s, c, j) <= j,
        forall|k: int| after_last(s, c, j) <= k < j ==> s[k] != c,
        after_last(s, c, j) > 0 ==> s[after_last(s, c, j) - 1] == c,
    decreases j,
{
    if j > 0 && s[j - 1] != c {
        lemma_after_last_bounds(s, c, j - 1);
    }
}

/// The part of `s` after its last `c` (all of `s` when `c` does not occur):
/// what `s.rsplit(c).next()` yields.
pub open spec fn last_segment(s: Seq<char>, c: char) -> Seq<char> {
    s.skip(after_last(s, c, s.len() as int))
}

pub fn last_segment_chars(s: &Vec<char>, c: char) -> (r: Vec<char>)
    ensures
        r@ == last_segment(s@, c),
{
    let mut j = s.len();
    while j > 0 && s[j - 1] != c
        invariant
            j <= s.len(),
            after_last(s@, c, s.len() as int) == after_last(s@, c, j as int),
        decreases j,
    {
        j -= 1;
    }
    let r = slice(s, j, s.len());
    assert(r@ =~= s@.skip(j as int));
    r
}

// ───────────────────────── trim ─────────────────────────

pub open spec fn trim_start(s: Seq<char>) -> Seq<char>
    decreases s.len(),
{
    if s.len() > 0 && is_ws(s[0]) {
        trim_start(s.drop_first())
    } else {
        s
    }
}

pub open spec fn trim_end(s: Seq<char>) -> Seq<char>
    decreases s.len(),
{
    if s.len() > 0 && is_ws(s.last()) {
        trim_end(s.drop_last())
    } else {
        s
    }
}

/// What `str::trim` leaves: leading and trailing white space removed.
pub open spec fn trim(s: Seq<char>) -> Seq<char> {
    trim_end(trim_start(s))
}

pub fn trim_start_chars(s: &Vec<char>) -> (r: Vec<char>)
    ensures
        r@ == trim_start(s@),
{
    let mut i: usize = 0;
    assert(s@.subrange(0, s.len() as int) =~= s@);
    while i < s.len() && is_whitespace(s[i])
        invariant
            i <= s.len(),
            trim_start(s@) == trim_start(s@.subrange(i as int, s.len() as int)),
        decreases s.len() - i,
    {
        assert(s@.subrange(i as int, s.len() as int).drop_first() =~= s@.subrange(
            i + 1,
            s.len() as int,
        ));
        i += 1;
    }
    slice(s, i, s.len())
}

pub fn trim_end_chars(s: &Vec<char>) -> (r: Vec<char>)
    ensures
        r@ == trim_end(s@),
{
    let mut j: usize = s.len();
    assert(s@.subrange(0, s.len() as int) =~= s@);
    while j > 0 && is_whitespace(s[j - 1])
        invariant
            j <= s.len(),
            trim_end(s@) == trim_end(s@.subrange(0, j as int)),
        decreases j,
    {
        assert(s@.subrange(0, j as int).drop_last() =~= s@.subrange(0, j - 1));
        j -= 1;
    }
    slice(s, 0, j)
}

pub fn trim_chars(s: &Vec<char>) -> (r: Vec<char>)
    ensures
        r@ == trim(s@),
{
    let a = trim_start_chars(s);
    trim_end_chars(&a)
}

// ───────────────────────── lines ─────────────────────────

/// `t` without one trailing carriage return.
pub open spec fn strip_cr(t: Seq<char>) -> Seq<char> {
    if t.len() > 0 && t.last() == '\r' {
        t.drop_last()
    } else {
        t
    }
}

/// The lines of `s[i..]`: split at `'\n'`, a `"\r\n"` ending counts as one
/// line ending, and a final ending does not start another line
/// (`str::lines`).
pub open spec fn lines_from(s: Seq<char>, i: int) -> Seq<Seq<char>>
    decreases s.len() - i,
{
    if i < 0 || i >= s.len() {
        Seq::empty()
    } else {
        let j = find_from(s, '\n', i);
        if j >= s.len() {
            seq![strip_cr(s.subrange(i, s.len() as int))]
        } else {
            proof {
                lemma_find_from_bounds(s, '\n', i);
            }
            seq![strip_cr(s.subrange(i, j))] + lines_from(s, j + 1)
        }
    }
}

pub open spec fn lines(s: Seq<char>) -> Seq<Seq<char>> {
    lines_from(s, 0)
}

fn strip_cr_chars(t: Vec<char>) -> (r: Vec<char>)
    ensures
        r@ == strip_cr(t@),
{
    if t.len() > 0 && t[t.len() - 1] == '\r' {
        slice(&t, 0, t.len() - 1)
    } else {
        t
    }
}

pub fn split_lines(s: &Vec<char>) -> (r: Vec<Vec<char>>)
    ensures
        r@.map_values(|l: Vec<char>| l@) == lines(s@),
{
    let mut r: Vec<Vec<char>> = Vec::new();
    let mut start: usize = 0;
    let mut i: usize = 0;
    while i < s.len()
        invariant
            start <= i <= s.len(),
            forall|k: int| start <= k < i ==> s@[k] != '\n',
            lines(s@) == r@.map_values(|l: Vec<char>| l@) + lines_from(s@, start as int),
        decreases s.len() - i,
    {
        if s[i] == '\n' {
            proof {
                lemma_find_from(s@, '\n', start as int, i as int);
            }
            let seg = slice(s, start, i);
            let line = strip_cr_chars(seg);
            let ghost old_r = r@;
            r.push(line);
            assert(r@.map_values(|l: Vec<char>| l@) =~= old_r.map_values(|l: Vec<char>| l@).push(
                line@,
            ));
            assert(lines_from(s@, start as int) == seq![line@] + lines_from(s@, i + 1));
            assert(lines(s@) =~= r@.map_values(|l: Vec<char>| l@) + lines_from(s@, i + 1));
            start = i + 1;
        }
        i += 1;
    }
    if start < s.len() {
        proof {
            lemma_find_from(s@, '\n', start as int, s.len() as int);
        }
        let seg = slice(s, start, s.len());
        let line = strip_cr_chars(seg);
        let ghost old_r = r@;
        r.push(line);
        assert(r@.map_values(|l: Vec<char>| l@) =~= old_r.map_values(|l: Vec<char>| l@).push(
            line@,
        ));
        assert(lines_from(s@, start as int) == seq![line@] + lines_from(s@, s.len() + 1));
        assert(lines(s@) =~= r@.map_values(|l: Vec<char>| l@));
    } else {
        assert(lines(s@) =~= r@.map_values(|l: Vec<char>| l@));
    }
    r
}

// ───────────────────────── split ─────────────────────────

/// The pieces of `s[i..]` between occurrences of `c` (`str::split`): an
/// empty text is one empty piece, and a final `c` ends with an empty piece.
pub open spec fn pieces_from(s: Seq<char>, c: char, i: int) -> Seq<Seq<char>>
    decreases s.len() - i,
{
    if i < 0 || i > s.len() {
        Seq::empty()
    } else {
        let j = find_from(s, c, i);
        if j >= s.len() {
            seq![s.subrange(i, s.len() as int)]
        } else {
            proof {
                lemma_find_from_bounds(s, c, i);
            }
            seq![s.subrange(i, j)] + pieces_from(s, c, j + 1)
        }
    }
}

pub open spec fn pieces(s: Seq<char>, c: char) -> Seq<Seq<char>> {
    pieces_from(s, c, 0)
}

pub fn split_char(s: &Vec<char>, c: char) -> (r: Vec<Vec<char>>)
    ensures
        r@.map_values(|l: Vec<char>| l@) == pieces(s@, c),
{
    let mut r: Vec<Vec<char>> = Vec::new();
    let mut start: usize = 0;
    let mut i: usize = 0;
    while i < s.len()
        invariant
            start <= i <= s.len(),
            forall|k: int| start <= k < i ==> s@[k] != c,
            pieces(s@, c) == r@.map_values(|l: Vec<char>| l@) + pieces_from(s@, c, start as int),
        decreases s.len() - i,
    {
        if s[i] == c {
            proof {
                lemma_find_from(s@, c, start as int, i as int);
            }
            let seg = slice(s, start, i);
            let ghost old_r = r@;
            r.push(seg);
            assert(r@.map_values(|l: Vec<char>| l@) =~= old_r.map_values(|l: Vec<char>| l@).push(
                seg@,
            ));
            assert(pieces_from(s@, c, start as int) == seq![seg@] + pieces_from(s@, c, i + 1));
            assert(pieces(s@, c) =~= r@.map_values(|l: Vec<char>| l@) + pieces_from(s@, c, i + 1));
            start = i + 1;
        }
        i += 1;
    }
    proof {
        lemma_find_from(s@, c, start as int, s.len() as int);
    }
    let seg = slice(s, start, s.len());
    let ghost old_r = r@;
    r.push(seg);
    assert(r@.map_values(|l: Vec<char>| l@) =~= old_r.map_values(|l: Vec<char>| l@).push(seg@));
    assert(pieces_from(s@, c, start as int) == seq![seg@]);
    assert(pieces(s@, c) =~= r@.map_values(|l: Vec<char>| l@));
    r
}

// ───────────────────────── split_whitespace ─────────────────────────

/// First index `k >= i` where `is_ws(s[k]) == want`, or `s.len()`.
pub open spec fn scan_ws(s: Seq<char>, i: int, want: bool) -> int
    decreases s.len() - i,
{
    if i < 0 || i >= s.len() {
        s.len() as int
    } else if is_ws(s[i]) == want {
        i
    } else {
        scan_ws(s, i + 1, want)
    }
}

pub proof fn lemma_scan_ws(s: Seq<char>, i: int, j: int, want: bool)
    requires
        0 <= i <= j <= s.len(),
        forall|k: int| i <= k < j ==> is_ws(s[k]) != want,
        j == s.len() || is_ws(s[j]) == want,
    ensures
        scan_ws(s, i, want) == j,
    decreases j - i,
{
    if i < j {
        lemma_scan_ws(s, i + 1, j, want);
    }
}

pub proof fn lemma_scan_ws_bounds(s: Seq<char>, i: int, want: bool)
    requires
        0 <= i <= s.len(),
    ensures
        i <= scan_ws(s, i, want) <= s.len(),
        scan_ws(s, i, want) < s.len() ==> is_ws(s[scan_ws(s, i, want)]) == want,
        i < s.len() && is_ws(s[i]) != want ==> scan_ws(s, i, want) > i,
    decreases s.len() - i,
{
    if i < s.len() && is_ws(s[i]) != want {
        lemma_scan_ws_bounds(s, i + 1, want);
    }
}

/// The white-space separated words of `s[i..]` (`str::split_whitespace`).
pub open spec fn words_from(s: Seq<char>, i: int) -> Seq<Seq<char>>
    decreases s.len() - i,
{
    if i < 0 || i >= s.len() {
        Seq::empty()
    } else {
        let a = scan_ws(s, i, false);
        if a >= s.len() {
            Seq::empty()
        } else {
            let b = scan_ws(s, a, true);
            proof {
                lemma_scan_ws_bounds(s, i, false);
                lemma_scan_ws_bounds(s, a, true);
            }
            seq![s.subrange(a, b)] + words_from(s, b)
        }
    }
}

pub open spec fn words(s: Seq<char>) -> Seq<Seq<char>> {
    words_from(s, 0)
}

fn scan_ws_exec(s: &Vec<char>, from: usize, want: bool) -> (r: usize)
    requires
        from <= s.len(),
    ensures
        r == scan_ws(s@, from as int, want),
        from <= r <= s.len(),
{
    let mut i = from;
    while i < s.len() && is_whitespace(s[i]) != want
        invariant
            from <= i <= s.len(),
            forall|k: int| from <= k < i ==> is_ws(s@[k]) != want,
        decreases s.len() - i,
    {
        i += 1;
    }
    proof {
        lemma_scan_ws(s@, from as int, i as int, want);
    }
    i
}

pub fn split_words(s: &Vec<char>) -> (r: Vec<Vec<char>>)
    ensures
        r@.map_values(|w: Vec<char>| w@) == words(s@),
{
    let mut r: Vec<Vec<char>> = Vec::new();
    let mut i: usize = 0;
    while i < s.len()
        invariant
            i <= s.len(),
            words(s@) == r@.map_values(|w: Vec<char>| w@) + words_from(s@, i as int),
        decreases s.len() - i,
    {
        let a = scan_ws_exec(s, i, false);
        if a >= s.len() {
            assert(words_from(s@, i as int) =~= Seq::<Seq<char>>::empty());
            assert(words(s@) =~= r@.map_values(|w: Vec<char>| w@));
            return r;
        }
        let b = scan_ws_exec(s, a, true);
        let w = slice(s, a, b);
        let ghost old_r = r@;
        r.push(w);
        assert(r@.map_values(|x: Vec<char>| x@) =~= old_r.map_values(|x: Vec<char>| x@).push(w@));
        assert(words_from(s@, i as int) == seq![w@] + words_from(s@, b as int));
        assert(words(s@) =~= r@.map_values(|x: Vec<char>| x@) + words_from(s@, b as int));
        i = b;
    }
    assert(words_from(s@, i as int) =~= Seq::<Seq<char>>::empty());
    assert(words(s@) =~= r@.map_values(|w: Vec<char>| w@));
    r
}

// ───────────────────────── numbers ─────────────────────────

/// Value of a string of decimal digits.
pub open spec fn digits_value(s: Seq<char>) -> nat
    decreases s.len(),
{
    if s.len() == 0 {
        0
    } else {
        digits_value(s.drop_last()) * 10 + digit_val(s.last())
    }
}

pub open spec fn all_digits(s: Seq<char>) -> bool {
    forall|i: int| 0 <= i < s.len() ==> is_digit(#[trigger] s[i])
}

/// `s` without one leading `c`.
pub open spec fn drop_sign(s: Seq<char>, c: char) -> Seq<char> {
    if s.len() > 0 && s[0] == c {
        s.drop_first()
    } else {
        s
    }
}

/// What `str::parse` gives for an unsigned integer type whose largest value
/// is `max`: an optional `+`, then at least one digit, the value not above
/// `max`.
pub open spec fn parse_unsigned(s: Seq<char>, max: nat) -> Option<nat> {
    let d = drop_sign(s, '+');
    if d.len() > 0 && all_digits(d) && digits_value(d) <= max {
        Some(digits_value(d))
    } else {
        None
    }
}

/// What `str::parse::<i32>` gives: an optional sign, then at least one
/// digit, the value in range.
pub open spec fn parse_i32_spec(s: Seq<char>) -> Option<int> {
    if s.len() > 0 && s[0] == '-' {
        let d = s.drop_first();
        if d.len() > 0 && all_digits(d) && digits_value(d) <= 0x8000_0000 {
            Some(-(digits_value(d) as int))
        } else {
            None
        }
    } else {
        match parse_unsigned(s, 0x7fff_ffff) {
            Some(v) => Some(v as int),
            None => None,
        }
    }
}

/// Digits of `s` read as a number that may not exceed `max`.
fn digits_upto(s: &Vec<char>, lo: usize, max: u64) -> (r: Option<u64>)
    requires
        lo <= s.len(),
    ensures
        ({
            let d = s@.skip(lo as int);
            match r {
                Some(v) => d.len() > 0 && all_digits(d) && digits_value(d) <= max && v
                    == digits_value(d),
                None => !(d.len() > 0 && all_digits(d) && digits_value(d) <= max),
            }
        }),
{
    let ghost d = s@.skip(lo as int);
    if lo >= s.len() {
        return None;
    }
    let mut v: u64 = 0;
    let mut i = lo;
    while i < s.len()
        invariant
            lo <= i <= s.len(),
            d == s@.skip(lo as int),
            all_digits(s@.subrange(lo as int, i as int)),
            v == digits_value(s@.subrange(lo as int, i as int)),
            v <= max,
        decreases s.len() - i,
    {
        let c = s[i];
        if !('0' <= c && c <= '9') {
            assert(d[i - lo] == c);
            assert(!is_digit(d[i - lo]));
            return None;
        }
        let dv = (c as u32 - '0' as u32) as u64;
        assert(dv == digit_val(c));
        assert(s@.subrange(lo as int, i + 1).drop_last() =~= s@.subrange(lo as int, i as int));
        if (v as u128) * 10 + (dv as u128) > max as u128 {
            proof {
                let k = (i - lo + 1) as int;
                let p = s@.subrange(lo as int, i + 1);
                assert(d.take(k) =~= p);
                assert forall|j: int| 0 <= j < p.len() implies is_digit(#[trigger] p[j]) by {
                    if j < p.len() - 1 {
                        assert(p[j] == s@.subrange(lo as int, i as int)[j]);
                    }
                }
                assert(digits_value(p) == v * 10 + dv);
                lemma_digits_prefix_le(d, k);
            }
            return None;
        }
        proof {
            let p = s@.subrange(lo as int, i + 1);
            assert forall|j: int| 0 <= j < p.len() implies is_digit(#[trigger] p[j]) by {
                if j < p.len() - 1 {
                    assert(p[j] == s@.subrange(lo as int, i as int)[j]);
                }
            }
        }
        v = v * 10 + dv;
        i += 1;
    }
    assert(s@.subrange(lo as int, s.len() as int) =~= d);
    Some(v)
}

/// A longer digit prefix never has a smaller value.
pub proof fn lemma_digits_prefix_le(d: Seq<char>, k: int)
    requires
        0 <= k <= d.len(),
        all_digits(d.take(k)),
    ensures
        all_digits(d) ==> digits_value(d.take(k)) <= digits_value(d),
    decreases d.len() - k,
{
    if k < d.len() && all_digits(d) {
        assert(d.take(k + 1).drop_last() =~= d.take(k));
        assert(all_digits(d.take(k + 1)));
        lemma_digits_prefix_le(d, k + 1);
    }
    if k == d.len() {
        assert(d.take(k) =~= d);
    }
}

/// Parses an unsigned decimal no larger than `max`.
pub fn parse_unsigned_chars(s: &Vec<char>, max: u64) -> (r: Option<u64>)
    ensures
        match r {
            Some(v) => parse_unsigned(s@, max as nat) == Some(v as nat),
            None => parse_unsigned(s@, max as nat) is None,
        },
{
    let lo: usize = if s.len() > 0 && s[0] == '+' {
        1
    } else {
        0
    };
    assert(s@.skip(lo as int) =~= drop_sign(s@, '+'));
    digits_upto(s, lo, max)
}

pub fn parse_u64(s: &Vec<char>) -> (r: Option<u64>)
    ensures
        match r {
            Some(v) => parse_unsigned(s@, u64::MAX as nat) == Some(v as nat),
            None => parse_unsigned(s@, u64::MAX as nat) is None,
        },
{
    parse_unsigned_chars(s, u64::MAX)
}

pub fn parse_u32(s: &Vec<char>) -> (r: Option<u32>)
    ensures
        match r {
            Some(v) => parse_unsigned(s@, u32::MAX as nat) == Some(v as nat),
            None => parse_unsigned(s@, u32::MAX as nat) is None,
        },
{
    match parse_unsigned_chars(s, u32::MAX as u64) {
        Some(v) => Some(v as u32),
        None => None,
    }
}

pub fn parse_i32(s: &Vec<char>) -> (r: Option<i32>)
    ensures
        match r {
            Some(v) => parse_i32_spec(s@) == Some(v as int),
            None => parse_i32_spec(s@) is None,
        },
{
    if s.len() > 0 && s[0] == '-' {
        assert(s@.skip(1) =~= s@.drop_first());
        match digits_upto(s, 1, 0x8000_0000) {
            Some(v) => {
                let w = (0i64 - v as i64) as i32;
                Some(w)
            },
            None => None,
        }
    } else {
        match parse_unsigned_chars(s, 0x7fff_ffff) {
            Some(v) => Some(v as i32),
            None => None,
        }
    }
}

// ───────────────────────── decimal formatting ─────────────────────────

/// Decimal digits of `n` (no sign, no leading zeros; `"0"` for zero).
pub open spec fn dec(n: nat) -> Seq<char>
    decreases n,
{
    if n < 10 {
        seq![digit_char(n)]
    } else {
        dec(n / 10).push(digit_char(n % 10))
    }
}

/// A decimal form is non-empty and made of the digits `0`-`9`.
pub proof fn lemma_dec_digits(n: nat)
    ensures
        dec(n).len() >= 1,
        forall|i: int| 0 <= i < dec(n).len() ==> '0' <= #[trigger] dec(n)[i] <= '9',
    decreases n,
{
    if n >= 10 {
        lemma_dec_digits(n / 10);
    }
}

proof fn lemma_digit_injective(x: nat, y: nat)
    requires
        x < 10,
        y < 10,
        digit_char(x) == digit_char(y),
    ensures
        x == y,
{
}

/// Different numbers have different decimal forms.
pub proof fn lemma_dec_injective(a: nat, b: nat)
    requires
        dec(a) == dec(b),
    ensures
        a == b,
    decreases a,
{
    if a >= 10 {
        lemma_dec_digits(a / 10);
    }
    if b >= 10 {
        lemma_dec_digits(b / 10);
    }
    if a >= 10 && b >= 10 {
        assert(dec(a).drop_last() =~= dec(a / 10));
        assert(dec(b).drop_last() =~= dec(b / 10));
        assert(dec(a).last() == digit_char(a % 10));
        assert(dec(b).last() == digit_char(b % 10));
        lemma_dec_injective(a / 10, b / 10);
        lemma_digit_injective(a % 10, b % 10);
        vstd::arithmetic::div_mod::lemma_fundamental_div_mod(a as int, 10);
        vstd::arithmetic::div_mod::lemma_fundamental_div_mod(b as int, 10);
    } else if a < 10 && b < 10 {
        assert(dec(a)[0] == digit_char(a));
        assert(dec(b)[0] == digit_char(b));
        lemma_digit_injective(a, b);
    } else if a >= 10 {
        assert(dec(a).len() == dec(a / 10).len() + 1);
        assert(dec(b).len() == 1);
    } else {
        assert(dec(b).len() == dec(b / 10).len() + 1);
        assert(dec(a).len() == 1);
    }
}

/// Decimal form of a signed number.
pub open spec fn dec_int(n: int) -> Seq<char> {
    if n < 0 {
        seq!['-'] + dec((-n) as nat)
    } else {
        dec(n as nat)
    }
}

fn digit_exec(d: u64) -> (c: char)
    requires
        d < 10,
    ensures
        c == digit_char(d as nat),
{
    if d == 0 {
        '0'
    } else if d == 1 {
        '1'
    } else if d == 2 {
        '2'
    } else if d == 3 {
        '3'
    } else if d == 4 {
        '4'
    } else if d == 5 {
        '5'
    } else if d == 6 {
        '6'
    } else if d == 7 {
        '7'
    } else if d == 8 {
        '8'
    } else {
        '9'
    }
}

/// Appends the decimal digits of `n`.
pub fn push_u64(s: &mut String, n: u64)
    ensures
        final(s)@ == old(s)@ + dec(n as nat),
    decreases n,
{
    if n >= 10 {
        push_u64(s, n / 10);
    }
    let c = digit_exec(n % 10);
    s.push(c);
    proof {
        if n < 10 {
            assert(n % 10 == n);
        }
    }
    assert(final(s)@ =~= old(s)@ + dec(n as nat));
}

/// Appends the decimal form of a signed number.
pub fn push_i64(s: &mut String, n: i64)
    ensures
        final(s)@ == old(s)@ + dec_int(n as int),
{
    if n < 0 {
        s.push('-');
        let m: u64 = if n == i64::MIN {
            0x8000_0000_0000_0000u64
        } else {
            (0 - n) as u64
        };
        push_u64(s, m);
        assert(final(s)@ =~= old(s)@ + dec_int(n as int));
    } else {
        push_u64(s, n as u64);
    }
}

} // verus!

verus! {

/// Unicode lowercase of a string, as `str::to_lowercase` computes it.
pub uninterp spec fn spec_to_lowercase(s: Seq<char>) -> Seq<char>;

/// Calls `str::to_lowercase`; the contract claims only that the result is
/// the function of the input named `spec_to_lowercase`.
#[verifier::external_body]
pub(crate) fn to_lowercase(s: &str) -> (r: String)
    ensures
        r@ == spec_to_lowercase(s@),
{
    s.to_lowercase()
}

} // verus!
