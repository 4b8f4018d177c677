//! The asset graph's logic: `.roll` → asset (path, SHA-256, mtime) →
//! Markdown references. Storage in SQLite is the caller's; this module
//! hashes contents, finds asset references in Markdown, and decides which
//! assets are orphans.

use vstd::prelude::*;

use crate::fspath::{join, join_path, opt_string_view, path_file_name, spec_file_name};
use crate::paths::{cache_dir, cache_dir_spec, XdgEnv};
use crate::text::{
    chars, chars_of, contains_lit, contains_seq, ends_with, ends_with_lit, eq_chars, eq_lit, last_segment,
    last_segment_chars, lines, lit, push_str, slice, split_lines, string_of,
};

verus! {

// ───────────────────────── assets ─────────────────────────

/// A registered asset.
pub struct Asset {
    pub path: String,
    /// SHA-256 of the contents, lower-case hex.
    pub hash: String,
    /// The `.roll` that produced it.
    pub source_roll: Option<String>,
    /// Modification time, seconds since the epoch.
    pub mtime: i64,
}

pub struct AssetModel {
    pub path: Seq<char>,
    pub hash: Seq<char>,
    pub source_roll: Option<Seq<char>>,
    pub mtime: i64,
}

impl View for Asset {
    type V = AssetModel;

    open spec fn view(&self) -> AssetModel {
        AssetModel {
            path: self.path@,
            hash: self.hash@,
            source_roll: opt_string_view(self.source_roll),
            mtime: self.mtime,
        }
    }
}

impl Asset {
    /// Frame cache of the asset: `<cache>/frames/<hash>`.
    pub fn frame_cache_dir(&self, env: &XdgEnv) -> (r: String)
        ensures
            r@ == join(join(cache_dir_spec(*env), "frames"@), self.hash@),
    {
        let c = cache_dir(env);
        let f = join_path(c.as_str(), "frames");
        join_path(f.as_str(), self.hash.as_str())
    }
}

fn copy_opt(o: &Option<String>) -> (r: Option<String>)
    ensures
        opt_string_view(r) == opt_string_view(*o),
{
    match o {
        Some(s) => Some(lit(s.as_str())),
        None => None,
    }
}

fn copy_asset(a: &Asset) -> (r: Asset)
    ensures
        r@ == a@,
{
    Asset {
        path: lit(a.path.as_str()),
        hash: lit(a.hash.as_str()),
        source_roll: copy_opt(&a.source_roll),
        mtime: a.mtime,
    }
}

// ───────────────────────── hashing ─────────────────────────

/// SHA-256 of a byte string, as `sha2::Sha256::digest` computes it.
pub uninterp spec fn spec_sha256(data: Seq<u8>) -> Seq<u8>;

/// Calls `sha2::Sha256::digest`; the contract claims that the result is the
/// function of the input named `spec_sha256` and has the digest's 32 bytes.
#[verifier::external_body]
fn sha256_digest(data: &[u8]) -> (r: Vec<u8>)
    ensures
        r@ == spec_sha256(data@),
        r@.len() == 32,
{
    <sha2::Sha256 as sha2::Digest>::digest(data).to_vec()
}

/// A hexadecimal digit, lower case.
pub open spec fn hex_digit(d: int) -> char {
    if d < 10 {
        (48 + d) as char
    } else {
        (97 + d - 10) as char
    }
}

/// Two lower-case hex digits per byte.
pub open spec fn hex_spec(b: Seq<u8>) -> Seq<char>
    decreases b.len(),
{
    if b.len() == 0 {
        Seq::empty()
    } else {
        hex_spec(b.drop_last()) + seq![hex_digit(b.last() as int / 16), hex_digit(b.last() as int % 16)]
    }
}

pub proof fn lemma_hex_len(b: Seq<u8>)
    ensures
        hex_spec(b).len() == 2 * b.len(),
    decreases b.len(),
{
    if b.len() > 0 {
        lemma_hex_len(b.drop_last());
    }
}

fn hex_char(d: u8) -> (c: char)
    requires
        d < 16,
    ensures
        c == hex_digit(d as int),
{
    if d < 10 {
        (48u8 + d) as char
    } else {
        (87u8 + d) as char
    }
}

/// Lower-case hex of a byte string.
pub fn hex(bytes: &[u8]) -> (r: String)
    ensures
        r@ == hex_spec(bytes@),
{
    let mut r = String::new();
    let mut i: usize = 0;
    while i < bytes.len()
        invariant
            i <= bytes.len(),
            r@ == hex_spec(bytes@.take(i as int)),
        decreases bytes.len() - i,
    {
        let b = bytes[i];
        let hi = hex_char(b / 16);
        let lo = hex_char(b % 16);
        let ghost before = r@;
        r.push(hi);
        r.push(lo);
        assert(bytes@.take(i + 1).drop_last() =~= bytes@.take(i as int));
        assert(r@ =~= hex_spec(bytes@.take(i + 1)));
        i += 1;
    }
    assert(bytes@.take(bytes.len() as int) =~= bytes@);
    r
}

/// SHA-256 of a file's contents, lower-case hex (64 characters).
pub fn sha256_hex(data: &[u8]) -> (r: String)
    ensures
        r@ == hex_spec(spec_sha256(data@)),
        r@.len() == 64,
{
    let d = sha256_digest(data);
    let r = hex(d.as_slice());
    proof {
        lemma_hex_len(d@);
    }
    r
}

// ───────────────────────── Markdown references ─────────────────────────

/// Characters that end a token when looking for asset references.
pub open spec fn is_ref_sep(c: char) -> bool {
    c == '(' || c == ')' || c == '[' || c == ']' || c == ' '
}

/// First index `k >= i` with a separator, or `s.len()`.
pub open spec fn next_sep(s: Seq<char>, i: int) -> int
    decreases s.len() - i,
{
    if i < 0 || i >= s.len() {
        s.len() as int
    } else if is_ref_sep(s[i]) {
        i
    } else {
        next_sep(s, i + 1)
    }
}

pub proof fn lemma_next_sep(s: Seq<char>, i: int, j: int)
    requires
        0 <= i <= j <= s.len(),
        forall|k: int| i <= k < j ==> !is_ref_sep(s[k]),
        j == s.len() || is_ref_sep(s[j]),
    ensures
        next_sep(s, i) == j,
    decreases j - i,
{
    if i < j {
        lemma_next_sep(s, i + 1, j);
    }
}

pub proof fn lemma_next_sep_bounds(s: Seq<char>, i: int)
    requires
        0 <= i <= s.len(),
    ensures
        i <= next_sep(s, i) <= s.len(),
    decreases s.len() - i,
{
    if i < s.len() && !is_ref_sep(s[i]) {
        lemma_next_sep_bounds(s, i + 1);
    }
}

/// The tokens of `s[i..]` between separators (empty tokens included).
pub open spec fn tokens_from(s: Seq<char>, i: int) -> Seq<Seq<char>>
    decreases s.len() - i,
{
    if i < 0 || i > s.len() {
        Seq::empty()
    } else {
        let j = next_sep(s, i);
        if j >= s.len() {
            seq![s.subrange(i, s.len() as int)]
        } else {
            proof {
                lemma_next_sep_bounds(s, i);
            }
            seq![s.subrange(i, j)] + tokens_from(s, j + 1)
        }
    }
}

fn split_tokens(s: &Vec<char>) -> (r: Vec<Vec<char>>)
    ensures
        r@.map_values(|l: Vec<char>| l@) == tokens_from(s@, 0),
{
    let mut r: Vec<Vec<char>> = Vec::new();
    let mut start: usize = 0;
    let mut i: usize = 0;
    while i < s.len()
        invariant
            start <= i <= s.len(),
            forall|k: int| start <= k < i ==> !is_ref_sep(s@[k]),
            tokens_from(s@, 0) == r@.map_values(|l: Vec<char>| l@) + tokens_from(s@, start as int),
        decreases s.len() - i,
    {
        let c = s[i];
        if c == '(' || c == ')' || c == '[' || c == ']' || c == ' ' {
            proof {
                lemma_next_sep(s@, start as int, i as int);
            }
            let seg = slice(s, start, i);
            let ghost old_r = r@;
            r.push(seg);
            assert(r@.map_values(|l: Vec<char>| l@) =~= old_r.map_values(|l: Vec<char>| l@).push(
                seg@,
            ));
            assert(tokens_from(s@, start as int) == seq![seg@] + tokens_from(s@, i + 1));
            assert(tokens_from(s@, 0) =~= r@.map_values(|l: Vec<char>| l@) + tokens_from(
                s@,
                i + 1,
            ));
            start = i + 1;
        }
        i += 1;
    }
    proof {
        lemma_next_sep(s@, start as int, s.len() as int);
    }
    let seg = slice(s, start, s.len());
    let ghost old_r = r@;
    r.push(seg);
    assert(r@.map_values(|l: Vec<char>| l@) =~= old_r.map_values(|l: Vec<char>| l@).push(seg@));
    assert(tokens_from(s@, start as int) == seq![seg@]);
    assert(tokens_from(s@, 0) =~= r@.map_values(|l: Vec<char>| l@));
    r
}

/// A token names an asset when it lies under `assets/` and has a media
/// container's extension.
pub open spec fn is_asset_token(t: Seq<char>) -> bool {
    contains_seq(t, "assets/"@) && (ends_with(t, ".webm"@) || ends_with(t, ".mp4"@) || ends_with(
        t,
        ".gif"@,
    ) || ends_with(t, ".webp"@))
}

/// The file name of the first asset token.
pub open spec fn first_asset(ts: Seq<Seq<char>>) -> Option<Seq<char>>
    decreases ts.len(),
{
    if ts.len() == 0 {
        None
    } else if is_asset_token(ts[0]) {
        Some(last_segment(ts[0], '/'))
    } else {
        first_asset(ts.drop_first())
    }
}

/// The asset a Markdown line refers to: the file name of its first token
/// (split at `(`, `)`, `[`, `]` and spaces) under `assets/` with a media
/// extension.
pub open spec fn asset_ref_spec(line: Seq<char>) -> Option<Seq<char>> {
    first_asset(tokens_from(line, 0))
}

fn is_asset_chars(t: &Vec<char>) -> (r: bool)
    ensures
        r == is_asset_token(t@),
{
    contains_lit(t, "assets/") && (ends_with_lit(t, ".webm") || ends_with_lit(t, ".mp4")
        || ends_with_lit(t, ".gif") || ends_with_lit(t, ".webp"))
}

pub fn extract_asset_ref(line: &str) -> (r: Option<String>)
    ensures
        opt_string_view(r) == asset_ref_spec(line@),
{
    let v = chars_of(line);
    let ts = split_tokens(&v);
    let ghost tv = ts@.map_values(|l: Vec<char>| l@);
    let mut i: usize = 0;
    assert(tv.skip(0) =~= tv);
    while i < ts.len()
        invariant
            i <= ts.len(),
            tv == ts@.map_values(|l: Vec<char>| l@),
            tv == tokens_from(line@, 0),
            first_asset(tv) == first_asset(tv.skip(i as int)),
        decreases ts.len() - i,
    {
        assert(tv.skip(i as int)[0] == tv[i as int]);
        assert(tv.skip(i as int).drop_first() =~= tv.skip(i + 1));
        if is_asset_chars(&ts[i]) {
            let name = last_segment_chars(&ts[i], '/');
            return Some(string_of(&name));
        }
        i += 1;
    }
    assert(tv.skip(ts.len() as int) =~= Seq::<Seq<char>>::empty());
    None
}

/// The references of a Markdown text: (asset file name, 1-based line) for
/// each line from the `k`-th on that refers to an asset.
pub open spec fn refs_from(ls: Seq<Seq<char>>, k: int) -> Seq<(Seq<char>, nat)>
    decreases ls.len() - k,
{
    if k < 0 || k >= ls.len() {
        Seq::empty()
    } else {
        match asset_ref_spec(ls[k]) {
            Some(a) => seq![(a, (k + 1) as nat)] + refs_from(ls, k + 1),
            None => refs_from(ls, k + 1),
        }
    }
}

pub open spec fn refs_view(v: Seq<(String, usize)>) -> Seq<(Seq<char>, nat)> {
    v.map_values(|p: (String, usize)| (p.0@, p.1 as nat))
}

/// The asset references of a Markdown file, in line order.
pub fn references_in(content: &str) -> (r: Vec<(String, usize)>)
    ensures
        refs_view(r@) == refs_from(lines(content@), 0),
{
    let v = chars_of(content);
    let ls = split_lines(&v);
    let ghost lv = ls@.map_values(|l: Vec<char>| l@);
    let mut out: Vec<(String, usize)> = Vec::new();
    let mut k: usize = 0;
    while k < ls.len()
        invariant
            k <= ls.len(),
            lv == ls@.map_values(|l: Vec<char>| l@),
            lv == lines(content@),
            refs_from(lv, 0) == refs_view(out@) + refs_from(lv, k as int),
        decreases ls.len() - k,
    {
        let line = string_of(&ls[k]);
        let ghost before = refs_view(out@);
        match extract_asset_ref(line.as_str()) {
            Some(a) => {
                out.push((a, k + 1));
                assert(refs_view(out@) =~= before.push((a@, (k + 1) as nat)));
                assert(before + refs_from(lv, k as int) =~= refs_view(out@) + refs_from(
                    lv,
                    k + 1,
                ));
            },
            None => {},
        }
        k += 1;
    }
    assert(refs_view(out@) + Seq::<(Seq<char>, nat)>::empty() =~= refs_view(out@));
    out
}

/// Markdown files are scanned for references: extension `md` or `markdown`.
pub fn is_markdown_path(p: &str) -> (r: bool)
    ensures
        r == (crate::fspath::extension(p@) == Some("md"@) || crate::fspath::extension(p@) == Some(
            "markdown"@,
        )),
{
    match crate::fspath::path_extension(p) {
        Some(e) => {
            let v = chars(&e);
            eq_lit(&v, "md") || eq_lit(&v, "markdown")
        },
        None => false,
    }
}

// ───────────────────────── orphans ─────────────────────────

/// The name an asset is referenced by: its file name, or empty.
pub open spec fn asset_name(path: Seq<char>) -> Seq<char> {
    match spec_file_name(path) {
        Some(n) => n,
        None => Seq::empty(),
    }
}

/// Registered assets that no Markdown file refers to, in registration order.
pub open spec fn orphans_spec(assets: Seq<AssetModel>, referenced: Seq<Seq<char>>) -> Seq<
    AssetModel,
>
    decreases assets.len(),
{
    if assets.len() == 0 {
        Seq::empty()
    } else {
        let rest = orphans_spec(assets.drop_last(), referenced);
        if referenced.contains(asset_name(assets.last().path)) {
            rest
        } else {
            rest.push(assets.last())
        }
    }
}

pub open spec fn assets_view(v: Seq<Asset>) -> Seq<AssetModel> {
    v.map_values(|a: Asset| a@)
}

fn contains_string(v: &Vec<String>, s: &String) -> (r: bool)
    ensures
        r == v@.map_values(|t: String| t@).contains(s@),
{
    let ghost vv = v@.map_values(|t: String| t@);
    let sv = chars(s);
    let mut i: usize = 0;
    while i < v.len()
        invariant
            i <= v.len(),
            vv == v@.map_values(|t: String| t@),
            sv@ == s@,
            forall|k: int| 0 <= k < i ==> vv[k] != s@,
        decreases v.len() - i,
    {
        let tv = chars(&v[i]);
        if eq_chars(&tv, &sv) {
            assert(vv[i as int] == s@);
            return true;
        }
        i += 1;
    }
    false
}

/// The assets whose file name is not among the referenced names.
pub fn orphans(assets: &Vec<Asset>, referenced: &Vec<String>) -> (r: Vec<Asset>)
    ensures
        assets_view(r@) == orphans_spec(assets_view(assets@), referenced@.map_values(
            |t: String| t@,
        )),
{
    let ghost rv = referenced@.map_values(|t: String| t@);
    let ghost av = assets_view(assets@);
    let mut out: Vec<Asset> = Vec::new();
    let mut i: usize = 0;
    while i < assets.len()
        invariant
            i <= assets.len(),
            rv == referenced@.map_values(|t: String| t@),
            av == assets_view(assets@),
            assets_view(out@) == orphans_spec(av.take(i as int), rv),
        decreases assets.len() - i,
    {
        assert(av.take(i + 1).drop_last() =~= av.take(i as int));
        let name = match path_file_name(assets[i].path.as_str()) {
            Some(n) => n,
            None => String::new(),
        };
        if !contains_string(referenced, &name) {
            let ghost before = assets_view(out@);
            let a = copy_asset(&assets[i]);
            out.push(a);
            assert(assets_view(out@) =~= before.push(av[i as int]));
        }
        i += 1;
    }
    assert(av.take(assets.len() as int) =~= av);
    out
}

/// What happened to an orphan.
#[derive(Debug, Clone, Copy, PartialEq, Eq, Structural)]
pub enum Removal {
    /// Only reported.
    DryRun,
    /// File and record removed.
    Deleted,
    /// The file was already gone; only the record was removed.
    StaleRecord,
}

pub open spec fn removal_text(path: Seq<char>, what: Removal) -> Seq<char> {
    match what {
        Removal::DryRun => "[dry-run] 孤兒: "@ + path,
        Removal::Deleted => "已刪除孤兒: "@ + path,
        Removal::StaleRecord => "清理失效 DB row: "@ + path,
    }
}

/// The line reporting what was done with an orphan.
pub fn removal_message(path: &str, what: Removal) -> (r: String)
    ensures
        r@ == removal_text(path@, what),
{
    let mut m = match what {
        Removal::DryRun => lit("[dry-run] 孤兒: "),
        Removal::Deleted => lit("已刪除孤兒: "),
        Removal::StaleRecord => lit("清理失效 DB row: "),
    };
    push_str(&mut m, path);
    m
}

/// An orphan is never referenced, and every unreferenced asset is an
/// orphan.
pub proof fn law_orphans_are_unreferenced(assets: Seq<AssetModel>, referenced: Seq<Seq<char>>)
    ensures
        forall|k: int|
            0 <= k < orphans_spec(assets, referenced).len() ==> !referenced.contains(
                asset_name(#[trigger] orphans_spec(assets, referenced)[k].path),
            ),
        forall|i: int|
            0 <= i < assets.len() && !referenced.contains(asset_name(#[trigger] assets[i].path))
                ==> orphans_spec(assets, referenced).contains(assets[i]),
    decreases assets.len(),
{
    if assets.len() > 0 {
        let init = assets.drop_last();
        law_orphans_are_unreferenced(init, referenced);
        let rest = orphans_spec(init, referenced);
        let r = orphans_spec(assets, referenced);
        assert forall|i: int|
            0 <= i < assets.len() && !referenced.contains(
                asset_name(#[trigger] assets[i].path),
            ) implies r.contains(assets[i]) by {
            if i < assets.len() - 1 {
                assert(init[i] == assets[i]);
                assert(rest.contains(init[i]));
                let w = choose|w: int| 0 <= w < rest.len() && rest[w] == init[i];
                if referenced.contains(asset_name(assets.last().path)) {
                    assert(r[w] == assets[i]);
                } else {
                    assert(r[w] == assets[i]);
                }
            } else {
                assert(r[r.len() - 1] == assets[i]);
            }
        }
    }
}

} // verus!
